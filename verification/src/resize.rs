use vstd::prelude::*;
use vstd::arithmetic::div_mod::{lemma_div_by_multiple, lemma_div_is_ordered};
use vstd::arithmetic::mul::lemma_mul_inequality;
use crate::raster::Raster;

verus! {

/// Resampling kernel selector: nearest neighbour, linear triangle, cubic
/// Catmull-Rom, or windowed-sinc Lanczos-3.
#[derive(Clone, Copy, Debug, PartialEq, Eq, Structural)]
pub enum ResizeFilter {
    Nearest,
    Triangle,
    CatmullRom,
    Lanczos3,
}

/// The raster the resampling backend returns for the given pixels, sizes,
/// bounding box and filter. The backend's kernels are involved enough that
/// the result is only named here, not restated; it is a function of these
/// arguments alone.
pub uninterp spec fn resampled(
    data: Seq<u8>,
    width: u32,
    height: u32,
    box_w: u32,
    box_h: u32,
    filter: ResizeFilter,
) -> Raster;

/// Relies on image's `DynamicImage::resize` (with `RgbaImage::from_raw` and
/// `into_rgba8` converting at either end): it scales to the largest
/// aspect-preserving size that fits within the `box_w` by `box_h` bounds,
/// never below one pixel per side, returns a clone of the input when the box
/// equals the input size, and depends on its arguments alone.
#[verifier::external_body]
pub(crate) fn resample_to_fit(src: &Raster, box_w: u32, box_h: u32, filter: ResizeFilter) -> (out:
    Raster)
    requires
        src.wf(),
        src.width > 0,
        src.height > 0,
        box_w > 0,
        box_h > 0,
    ensures
        out == resampled(src.data@, src.width, src.height, box_w, box_h, filter),
        out.wf(),
        1 <= out.width <= box_w,
        1 <= out.height <= box_h,
        box_w == src.width && box_h == src.height ==> out == *src,
{
    let f = match filter {
        ResizeFilter::Nearest => image::imageops::FilterType::Nearest,
        ResizeFilter::Triangle => image::imageops::FilterType::Triangle,
        ResizeFilter::CatmullRom => image::imageops::FilterType::CatmullRom,
        ResizeFilter::Lanczos3 => image::imageops::FilterType::Lanczos3,
    };
    let buf = image::RgbaImage::from_raw(src.width, src.height, src.data.clone()).unwrap();
    let out = image::DynamicImage::ImageRgba8(buf).resize(box_w, box_h, f).into_rgba8();
    let (w, h) = (out.width(), out.height());
    Raster { width: w, height: h, data: out.into_raw() }
}

/// The raster the resampling backend returns when asked for these exact
/// output dimensions; a function of these arguments alone.
pub uninterp spec fn resampled_exact(
    data: Seq<u8>,
    width: u32,
    height: u32,
    new_w: u32,
    new_h: u32,
    filter: ResizeFilter,
) -> Raster;

/// Relies on image's `DynamicImage::resize_exact` (with `RgbaImage::from_raw`
/// and `into_rgba8` converting at either end): the result has exactly the
/// requested dimensions and depends on its arguments alone.
#[verifier::external_body]
pub(crate) fn resample_exact(src: &Raster, new_w: u32, new_h: u32, filter: ResizeFilter) -> (out:
    Raster)
    requires
        src.wf(),
        src.width > 0,
        src.height > 0,
        new_w > 0,
        new_h > 0,
    ensures
        out == resampled_exact(src.data@, src.width, src.height, new_w, new_h, filter),
        out.wf(),
        out.width == new_w,
        out.height == new_h,
{
    let f = match filter {
        ResizeFilter::Nearest => image::imageops::FilterType::Nearest,
        ResizeFilter::Triangle => image::imageops::FilterType::Triangle,
        ResizeFilter::CatmullRom => image::imageops::FilterType::CatmullRom,
        ResizeFilter::Lanczos3 => image::imageops::FilterType::Lanczos3,
    };
    let buf = image::RgbaImage::from_raw(src.width, src.height, src.data.clone()).unwrap();
    let out = image::DynamicImage::ImageRgba8(buf).resize_exact(new_w, new_h, f).into_rgba8();
    let (w, h) = (out.width(), out.height());
    Raster { width: w, height: h, data: out.into_raw() }
}

/// The box handed to the resampler for an export resize: the longest side
/// becomes `target`, the other is scaled by the same ratio, rounded toward
/// zero but kept at one pixel or more. A square source takes `target` on
/// both sides.
pub open spec fn spec_export_resize_box(width: int, height: int, target: int) -> (int, int) {
    if width > height {
        (target, scaled_side(height, target, width))
    } else {
        (scaled_side(width, target, height), target)
    }
}

/// The product of two 32-bit values fits in 64 bits.
proof fn lemma_u32_mul_fits(a: int, b: int)
    requires
        0 <= a < 0x1_0000_0000,
        0 <= b < 0x1_0000_0000,
    ensures
        0 <= a * b <= u64::MAX,
{
    assert(0 <= a * b && a * b <= (0x1_0000_0000 - 1) * (0x1_0000_0000 - 1)) by (nonlinear_arith)
        requires
            0 <= a < 0x1_0000_0000,
            0 <= b < 0x1_0000_0000,
    ;
}

/// `side` scaled by `target / longest`, rounded toward zero, at least one.
pub open spec fn scaled_side(side: int, target: int, longest: int) -> int {
    let scaled = (side * target) / longest;
    if scaled < 1 {
        1
    } else {
        scaled
    }
}

/// The scaled side never exceeds the target when it scales the shorter side
/// of a source down to a positive target.
proof fn lemma_scaled_side_bounds(side: int, target: int, longest: int)
    requires
        0 < side <= longest,
        0 < target,
    ensures
        1 <= scaled_side(side, target, longest) <= target,
{
    lemma_mul_inequality(side, longest, target);
    assert(longest * target == target * longest) by (nonlinear_arith);
    lemma_div_is_ordered(side * target, target * longest, longest);
    lemma_div_by_multiple(target, longest);
}

/// Computes the export-resize box for a `width` by `height` source and a
/// requested longest dimension, as `spec_export_resize_box` describes.
pub fn export_resize_box(width: u32, height: u32, target: u32) -> (dims: (u32, u32))
    requires
        width > 0,
        height > 0,
        target > 0,
    ensures
        (dims.0 as int, dims.1 as int) == spec_export_resize_box(
            width as int,
            height as int,
            target as int,
        ),
        1 <= dims.0 <= target,
        1 <= dims.1 <= target,
{
    if width > height {
        proof {
            lemma_u32_mul_fits(height as int, target as int);
            lemma_scaled_side_bounds(height as int, target as int, width as int);
        }
        let scaled: u64 = ((height as u64) * (target as u64)) / (width as u64);
        let side: u32 = if scaled < 1 {
            1
        } else {
            scaled as u32
        };
        (target, side)
    } else {
        proof {
            lemma_u32_mul_fits(width as int, target as int);
            lemma_scaled_side_bounds(width as int, target as int, height as int);
        }
        let scaled: u64 = ((width as u64) * (target as u64)) / (height as u64);
        let side: u32 = if scaled < 1 {
            1
        } else {
            scaled as u32
        };
        (side, target)
    }
}

/// The box a preview is downscaled into: unchanged when the source already
/// fits; otherwise scaled by the smaller of `box_w / width` and
/// `box_h / height`, each side rounded toward zero but kept at one pixel.
pub open spec fn spec_preview_fit_box(width: int, height: int, box_w: int, box_h: int) -> (
    int,
    int,
) {
    if width <= box_w && height <= box_h {
        (width, height)
    } else if box_w * height <= box_h * width {
        (scaled_side(width, box_w, width), scaled_side(height, box_w, width))
    } else {
        (scaled_side(width, box_h, height), scaled_side(height, box_h, height))
    }
}

/// A preview is never upscaled: a source that already fits the bounding box
/// keeps its dimensions exactly.
pub proof fn lemma_preview_never_upscales(width: int, height: int, box_w: int, box_h: int)
    requires
        width <= box_w,
        height <= box_h,
    ensures
        spec_preview_fit_box(width, height, box_w, box_h) == (width, height),
{
}

/// Computes the preview box for a `width` by `height` composite and a
/// bounding box, as `spec_preview_fit_box` describes. Both sides of the
/// result fit the bounds whenever the bounds are positive.
pub fn preview_fit_box(width: u32, height: u32, box_w: u32, box_h: u32) -> (dims: (u32, u32))
    requires
        width > 0,
        height > 0,
        box_w > 0,
        box_h > 0,
    ensures
        (dims.0 as int, dims.1 as int) == spec_preview_fit_box(
            width as int,
            height as int,
            box_w as int,
            box_h as int,
        ),
        1 <= dims.0 <= if width <= box_w && height <= box_h { width } else { box_w },
        1 <= dims.1 <= if width <= box_w && height <= box_h { height } else { box_h },
{
    proof {
        lemma_u32_mul_fits(box_w as int, height as int);
        lemma_u32_mul_fits(box_h as int, width as int);
        lemma_u32_mul_fits(width as int, box_w as int);
        lemma_u32_mul_fits(height as int, box_w as int);
        lemma_u32_mul_fits(width as int, box_h as int);
        lemma_u32_mul_fits(height as int, box_h as int);
    }
    if width <= box_w && height <= box_h {
        (width, height)
    } else if (box_w as u64) * (height as u64) <= (box_h as u64) * (width as u64) {
        proof {
            let w = width as int;
            let h = height as int;
            let bw = box_w as int;
            let bh = box_h as int;
            assert(w * bw == bw * w && h * bw == bw * h) by (nonlinear_arith);
            lemma_div_by_multiple(bw, w);
            lemma_div_is_ordered(h * bw, bh * w, w);
            lemma_div_by_multiple(bh, w);
        }
        let sw: u64 = ((width as u64) * (box_w as u64)) / (width as u64);
        let sh: u64 = ((height as u64) * (box_w as u64)) / (width as u64);
        let w: u32 = if sw < 1 {
            1
        } else {
            sw as u32
        };
        let h: u32 = if sh < 1 {
            1
        } else {
            sh as u32
        };
        (w, h)
    } else {
        proof {
            let w = width as int;
            let h = height as int;
            let bw = box_w as int;
            let bh = box_h as int;
            assert(h * bh == bh * h && w * bh == bh * w) by (nonlinear_arith);
            lemma_div_by_multiple(bh, h);
            lemma_div_is_ordered(w * bh, bw * h, h);
            lemma_div_by_multiple(bw, h);
        }
        let sw: u64 = ((width as u64) * (box_h as u64)) / (height as u64);
        let sh: u64 = ((height as u64) * (box_h as u64)) / (height as u64);
        let w: u32 = if sw < 1 {
            1
        } else {
            sw as u32
        };
        let h: u32 = if sh < 1 {
            1
        } else {
            sh as u32
        };
        (w, h)
    }
}

} // verus!
