use vstd::prelude::*;
use vstd::arithmetic::div_mod::{
    lemma_div_by_multiple, lemma_div_is_ordered, lemma_fundamental_div_mod, lemma_mod_bound,
};
use vstd::arithmetic::mul::lemma_mul_inequality;

verus! {

/// How much padding to add and whether it preserves the source aspect ratio.
///
/// The padding amount is a fraction of the source's longest side, stored in
/// hundredths of a percent so that fractional slider positions keep an exact
/// representation (1000 means a 10% border). Useful range: 0 to 50%.
#[derive(Clone, Copy, Debug, PartialEq, Eq, Structural)]
pub struct BorderOptions {
    pub symmetrical: bool,
    pub percent_hundredths: u32,
}

/// Largest supported border: 50%, in hundredths of a percent.
pub const MAX_PERCENT_HUNDREDTHS: u32 = 5000;

/// Denominator of the fixed-point border fraction: 100% in hundredths.
pub const PERCENT_SCALE: u32 = 10000;

impl BorderOptions {
    pub open spec fn wf(self) -> bool {
        self.percent_hundredths <= MAX_PERCENT_HUNDREDTHS
    }
}

/// The computed canvas size and the top-left position of the source on it.
#[derive(Clone, Copy, Debug, PartialEq, Eq, Structural)]
pub struct Geometry {
    pub new_width: u32,
    pub new_height: u32,
    pub x_offset: u32,
    pub y_offset: u32,
}

pub open spec fn longest_side(width: int, height: int) -> int {
    if width >= height {
        width
    } else {
        height
    }
}

/// A side grown by the border fraction, rounded toward zero.
pub open spec fn grown_size(longest: int, percent_hundredths: int) -> int {
    (longest * (PERCENT_SCALE + percent_hundredths)) / (PERCENT_SCALE as int)
}

/// The border geometry: the border is always measured against the longest
/// source side. Symmetrical mode pads both axes by the same amount, keeping
/// the aspect ratio; otherwise the canvas is forced square at the grown size.
/// Offsets center the source on each axis, rounding down.
pub open spec fn spec_geometry(width: int, height: int, opts: BorderOptions) -> Geometry {
    let longest = longest_side(width, height);
    let grown = grown_size(longest, opts.percent_hundredths as int);
    if opts.symmetrical {
        let delta = grown - longest;
        Geometry {
            new_width: (width + delta) as u32,
            new_height: (height + delta) as u32,
            x_offset: ((delta) / 2) as u32,
            y_offset: ((delta) / 2) as u32,
        }
    } else {
        Geometry {
            new_width: grown as u32,
            new_height: grown as u32,
            x_offset: ((grown - width) / 2) as u32,
            y_offset: ((grown - height) / 2) as u32,
        }
    }
}

/// The grown size never shrinks below the side it grows, and a zero border
/// leaves it exactly unchanged.
pub proof fn lemma_grown_size_bounds(longest: int, percent_hundredths: int)
    requires
        longest >= 0,
        percent_hundredths >= 0,
    ensures
        grown_size(longest, percent_hundredths) >= longest,
        percent_hundredths == 0 ==> grown_size(longest, percent_hundredths) == longest,
{
    let scale = PERCENT_SCALE as int;
    lemma_mul_inequality(scale, scale + percent_hundredths, longest);
    assert(longest * scale <= longest * (scale + percent_hundredths));
    lemma_div_is_ordered(longest * scale, longest * (scale + percent_hundredths), scale);
    lemma_div_by_multiple(longest, scale);
}

/// An asymmetric border always yields a square canvas, whatever the source
/// aspect ratio.
pub proof fn lemma_asymmetric_square(width: int, height: int, opts: BorderOptions)
    requires
        width > 0,
        height > 0,
        opts.wf(),
        !opts.symmetrical,
    ensures
        spec_geometry(width, height, opts).new_width == spec_geometry(
            width,
            height,
            opts,
        ).new_height,
{
}

/// A symmetrical border pads both axes by the same amount: the canvas grows
/// by one common delta in width and in height.
pub proof fn lemma_symmetric_preserves_delta(width: int, height: int, opts: BorderOptions)
    requires
        width > 0,
        height > 0,
        opts.wf(),
        opts.symmetrical,
        grown_size(longest_side(width, height), opts.percent_hundredths as int) <= u32::MAX,
    ensures
        spec_geometry(width, height, opts).new_width - width == spec_geometry(
            width,
            height,
            opts,
        ).new_height - height,
{
    lemma_grown_size_bounds(longest_side(width, height), opts.percent_hundredths as int);
}

/// The source always lands wholly on the canvas: each offset plus the
/// source side fits within the new side.
pub proof fn lemma_offsets_within_canvas(width: int, height: int, opts: BorderOptions)
    requires
        0 < width <= u32::MAX,
        0 < height <= u32::MAX,
        opts.wf(),
        grown_size(longest_side(width, height), opts.percent_hundredths as int) <= u32::MAX,
    ensures
        spec_geometry(width, height, opts).x_offset + width <= spec_geometry(
            width,
            height,
            opts,
        ).new_width,
        spec_geometry(width, height, opts).y_offset + height <= spec_geometry(
            width,
            height,
            opts,
        ).new_height,
{
    let longest = longest_side(width, height);
    let grown = grown_size(longest, opts.percent_hundredths as int);
    lemma_grown_size_bounds(longest, opts.percent_hundredths as int);
    lemma_half_does_not_exceed(grown - longest);
    lemma_half_does_not_exceed(grown - width);
    lemma_half_does_not_exceed(grown - height);
}

/// Half of a nonnegative value, rounded down, never exceeds the value.
proof fn lemma_half_does_not_exceed(x: int)
    requires
        x >= 0,
    ensures
        0 <= x / 2 <= x,
{
    lemma_fundamental_div_mod(x, 2);
    lemma_mod_bound(x, 2);
}

/// A zero border changes nothing in symmetrical mode, and in asymmetric
/// mode still forces a square at the longest original side.
pub proof fn lemma_zero_border(width: int, height: int, opts: BorderOptions)
    requires
        0 < width <= u32::MAX,
        0 < height <= u32::MAX,
        opts.percent_hundredths == 0,
    ensures
        opts.symmetrical ==> spec_geometry(width, height, opts).new_width == width
            && spec_geometry(width, height, opts).new_height == height,
        !opts.symmetrical ==> spec_geometry(width, height, opts).new_width == longest_side(
            width,
            height,
        ) && spec_geometry(width, height, opts).new_height == longest_side(width, height),
{
    lemma_grown_size_bounds(longest_side(width, height), 0);
}

/// Computes the canvas size and centering offsets for a border around a
/// `width` by `height` source, as `spec_geometry` describes.
pub fn compute_geometry(width: u32, height: u32, opts: &BorderOptions) -> (g: Geometry)
    requires
        width > 0,
        height > 0,
        opts.wf(),
        grown_size(longest_side(width as int, height as int), opts.percent_hundredths as int)
            <= u32::MAX,
    ensures
        g == spec_geometry(width as int, height as int, *opts),
        g.new_width >= width,
        g.new_height >= height,
{
    let longest: u32 = if width >= height {
        width
    } else {
        height
    };
    proof {
        lemma_grown_size_bounds(longest as int, opts.percent_hundredths as int);
    }
    let scaled: u64 = (longest as u64) * ((PERCENT_SCALE + opts.percent_hundredths) as u64);
    let grown: u32 = (scaled / (PERCENT_SCALE as u64)) as u32;
    let delta: u32 = grown - longest;
    if opts.symmetrical {
        Geometry {
            new_width: width + delta,
            new_height: height + delta,
            x_offset: delta / 2,
            y_offset: delta / 2,
        }
    } else {
        Geometry {
            new_width: grown,
            new_height: grown,
            x_offset: (grown - width) / 2,
            y_offset: (grown - height) / 2,
        }
    }
}

} // verus!
