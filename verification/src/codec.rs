use vstd::prelude::*;
use vstd::string::StringExecFns;
use crate::raster::Raster;

verus! {

/// The output codecs an export can choose from.
#[derive(Clone, Copy, Debug, PartialEq, Eq, Structural)]
pub enum OutputFormat {
    Png,
    Jpeg,
    Tiff,
    Avif,
    Webp,
}

/// The file extension written for each output format.
pub open spec fn spec_extension(fmt: OutputFormat) -> Seq<char> {
    match fmt {
        OutputFormat::Png => "png"@,
        OutputFormat::Jpeg => "jpg"@,
        OutputFormat::Tiff => "tiff"@,
        OutputFormat::Avif => "avif"@,
        OutputFormat::Webp => "webp"@,
    }
}

pub fn extension_str(fmt: OutputFormat) -> (r: &'static str)
    ensures
        r@ == spec_extension(fmt),
{
    match fmt {
        OutputFormat::Png => "png",
        OutputFormat::Jpeg => "jpg",
        OutputFormat::Tiff => "tiff",
        OutputFormat::Avif => "avif",
        OutputFormat::Webp => "webp",
    }
}

/// The name of an exported file: the source's stem, a fixed marker, and the
/// format's extension.
pub open spec fn spec_output_file_name(stem: Seq<char>, fmt: OutputFormat) -> Seq<char> {
    stem + "_bordered."@ + spec_extension(fmt)
}

pub fn output_file_name(stem: &str, fmt: OutputFormat) -> (name: String)
    ensures
        name@ == spec_output_file_name(stem@, fmt),
{
    let mut name = stem.to_owned();
    name.append("_bordered.");
    name.append(extension_str(fmt));
    name
}

#[verifier::external_type_specification]
#[verifier::external_body]
pub struct ExImageError(image::ImageError);

/// The RGBA8 raster the imaging backend decodes the given bytes to, or
/// nothing when it rejects them; decoding is a function of the bytes alone.
pub uninterp spec fn decoded_raster(bytes: Seq<u8>) -> Option<Raster>;

/// Relies on image's `load_from_memory` (format is sniffed from the bytes)
/// and `DynamicImage::into_rgba8`: whether the bytes decode, and to what,
/// depends on the bytes alone, and the RGBA8 buffer of a decoded image holds
/// exactly four bytes per pixel.
#[verifier::external_body]
pub(crate) fn decode_rgba(bytes: &[u8]) -> (r: Result<Raster, image::ImageError>)
    ensures
        r matches Ok(img) ==> decoded_raster(bytes@) == Some(img) && img.wf(),
        r is Err ==> decoded_raster(bytes@) is None,
{
    let img = image::load_from_memory(bytes)?.into_rgba8();
    let (w, h) = (img.width(), img.height());
    Ok(Raster { width: w, height: h, data: img.into_raw() })
}

/// The bytes of the PNG encoding of an RGBA8 image, with the codec's
/// default compression.
pub uninterp spec fn png_encoding(data: Seq<u8>, width: u32, height: u32) -> Seq<u8>;

/// Relies on image's `DynamicImage::write_to` with the PNG format (and
/// `RgbaImage::from_raw` to rebuild the buffer): the RGBA8 pixels are
/// encoded with default settings, deterministically in the arguments. The
/// codec writes to memory and rejects only a zero side, so encoding a
/// well-formed raster with positive sides always succeeds.
#[verifier::external_body]
pub(crate) fn encode_png(img: &Raster) -> (r: Result<Vec<u8>, image::ImageError>)
    requires
        img.wf(),
    ensures
        r matches Ok(b) ==> b@ == png_encoding(img.data@, img.width, img.height),
        img.width >= 1 && img.height >= 1 ==> r is Ok,
{
    let buf = image::RgbaImage::from_raw(img.width, img.height, img.data.clone()).unwrap();
    let mut out = std::io::Cursor::new(Vec::new());
    image::DynamicImage::ImageRgba8(buf).write_to(&mut out, image::ImageFormat::Png)?;
    Ok(out.into_inner())
}

/// The bytes of the JPEG encoding of an RGB8 image at the given quality.
pub uninterp spec fn jpeg_encoding(rgb: Seq<u8>, width: u32, height: u32, quality: u8) -> Seq<u8>;

/// Relies on image's `JpegEncoder::new_with_quality` and `JpegEncoder::encode`
/// on RGB8 data: deterministic in the pixels, size and quality. The encoder
/// panics when the buffer length disagrees with the dimensions, so such
/// buffers are excluded. It writes to memory and rejects exactly the sides
/// outside 1 to 65535, so within that range it always succeeds.
#[verifier::external_body]
pub(crate) fn encode_jpeg(rgb: &Vec<u8>, width: u32, height: u32, quality: u8) -> (r: Result<
    Vec<u8>,
    image::ImageError,
>)
    requires
        rgb.len() == 3 * (width as int) * (height as int),
    ensures
        r matches Ok(b) ==> b@ == jpeg_encoding(rgb@, width, height, quality),
        1 <= width <= 65535 && 1 <= height <= 65535 ==> r is Ok,
{
    let mut out: Vec<u8> = Vec::new();
    let mut enc = image::codecs::jpeg::JpegEncoder::new_with_quality(&mut out, quality);
    enc.encode(rgb, width, height, image::ExtendedColorType::Rgb8)?;
    Ok(out)
}

/// The bytes of the TIFF encoding of an RGB8 image, default settings.
pub uninterp spec fn tiff_encoding(rgb: Seq<u8>, width: u32, height: u32) -> Seq<u8>;

/// Relies on image's `TiffEncoder` writing RGB8 data through the
/// `ImageEncoder` trait: deterministic in the pixels and size. The encoder
/// panics when the buffer length disagrees with the dimensions, so such
/// buffers are excluded. It writes classic TIFF to memory: it rejects a
/// zero side, and its only other failure is a 32-bit file offset
/// overflowing, which cannot happen while the pixel bytes, the strip
/// directory (strips hold whole rows, eight directory bytes each) and the
/// fixed tags all fit well inside the offset range.
#[verifier::external_body]
pub(crate) fn encode_tiff(rgb: &Vec<u8>, width: u32, height: u32) -> (r: Result<
    Vec<u8>,
    image::ImageError,
>)
    requires
        rgb.len() == 3 * (width as int) * (height as int),
    ensures
        r matches Ok(b) ==> b@ == tiff_encoding(rgb@, width, height),
        width >= 1 && height >= 1 && 3 * (width as int) * (height as int) + 8 * (height as int)
            + 4096 <= u32::MAX ==> r is Ok,
{
    let mut cur = std::io::Cursor::new(Vec::new());
    let enc = image::codecs::tiff::TiffEncoder::new(&mut cur);
    image::ImageEncoder::write_image(enc, rgb, width, height, image::ExtendedColorType::Rgb8)?;
    Ok(cur.into_inner())
}

/// The bytes of the lossless WebP encoding of an RGB8 image.
pub uninterp spec fn webp_encoding(rgb: Seq<u8>, width: u32, height: u32) -> Seq<u8>;

/// Relies on image's `WebPEncoder::new_lossless` and `WebPEncoder::encode`
/// on RGB8 data: deterministic in the pixels and size. The encoder panics
/// when the buffer length disagrees with the dimensions, so such buffers are
/// excluded. It writes to memory and rejects exactly the sides outside the
/// lossless format's 1 to 16384, so within that range it always succeeds.
#[verifier::external_body]
pub(crate) fn encode_webp(rgb: &Vec<u8>, width: u32, height: u32) -> (r: Result<
    Vec<u8>,
    image::ImageError,
>)
    requires
        rgb.len() == 3 * (width as int) * (height as int),
    ensures
        r matches Ok(b) ==> b@ == webp_encoding(rgb@, width, height),
        1 <= width <= 16384 && 1 <= height <= 16384 ==> r is Ok,
{
    let mut out: Vec<u8> = Vec::new();
    let enc = image::codecs::webp::WebPEncoder::new_lossless(&mut out);
    enc.encode(rgb, width, height, image::ExtendedColorType::Rgb8)?;
    Ok(out)
}

/// Relies on image's `AvifEncoder::new_with_speed_quality` and its
/// `ImageEncoder::write_image` on RGB8 data: the given speed and quality are
/// handed to the codec, which clamps them into its own ranges. The AV1
/// payload comes from a multithreaded encoder, so nothing is claimed of it
/// beyond its container: the serializer always writes the ISO-BMFF `ftyp`
/// box first, so a successful encode starts with a box size and the four
/// bytes spelling `ftyp`. The encoder panics when the buffer length
/// disagrees with the dimensions, so such buffers are excluded.
#[verifier::external_body]
pub(crate) fn encode_avif(rgb: &Vec<u8>, width: u32, height: u32, speed: u8, quality: u8) -> (r:
    Result<Vec<u8>, image::ImageError>)
    requires
        rgb.len() == 3 * (width as int) * (height as int),
    ensures
        r matches Ok(b) ==> b@.len() >= 12 && b@[4] == 102 && b@[5] == 116 && b@[6] == 121
            && b@[7] == 112,
{
    let mut out: Vec<u8> = Vec::new();
    let enc = image::codecs::avif::AvifEncoder::new_with_speed_quality(&mut out, speed, quality);
    image::ImageEncoder::write_image(enc, rgb, width, height, image::ExtendedColorType::Rgb8)?;
    Ok(out)
}

} // verus!
