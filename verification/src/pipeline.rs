use vstd::prelude::*;
use crate::geometry::{
    compute_geometry, grown_size, lemma_offsets_within_canvas, longest_side, spec_geometry,
    BorderOptions, Geometry, PERCENT_SCALE,
};
use crate::raster::{composite_bytes, composite_onto_white, drop_alpha, rgb_bytes, Raster};
use crate::resize::{
    export_resize_box, preview_fit_box, resample_exact, resample_to_fit, resampled,
    resampled_exact, spec_export_resize_box, spec_preview_fit_box, ResizeFilter,
};
use crate::codec::{
    decode_rgba, decoded_raster, encode_avif, encode_jpeg, encode_png, encode_tiff, encode_webp,
    jpeg_encoding, output_file_name, png_encoding, spec_output_file_name, tiff_encoding,
    webp_encoding, OutputFormat,
};

verus! {

/// Everything an export needs: the border, the optional resize, the output
/// codec and its per-format parameters.
#[derive(Clone, Copy, Debug, PartialEq, Eq, Structural)]
pub struct ExportOptions {
    pub border: BorderOptions,
    pub resize_enabled: bool,
    pub resize_longest_dimension: u32,
    pub resize_filter: ResizeFilter,
    pub output_format: OutputFormat,
    pub jpeg_quality: u8,
    pub avif_quality: u8,
    pub avif_speed: u8,
}

impl ExportOptions {
    pub open spec fn wf(self) -> bool {
        &&& self.border.wf()
        &&& self.resize_longest_dimension > 0
        &&& 1 <= self.jpeg_quality <= 100
        &&& 1 <= self.avif_quality <= 100
        &&& 1 <= self.avif_speed <= 10
    }
}

impl Default for ExportOptions {
    /// The options every run starts from: a 10% asymmetric border, no
    /// resize (Lanczos-3, longest side 800, when enabled), PNG output,
    /// JPEG and AVIF quality 80, AVIF speed 4.
    fn default() -> (d: Self)
        ensures
            d == (ExportOptions {
                border: BorderOptions { symmetrical: false, percent_hundredths: 1000 },
                resize_enabled: false,
                resize_longest_dimension: 800,
                resize_filter: ResizeFilter::Lanczos3,
                output_format: OutputFormat::Png,
                jpeg_quality: 80,
                avif_quality: 80,
                avif_speed: 4,
            }),
            d.wf(),
    {
        ExportOptions {
            border: BorderOptions { symmetrical: false, percent_hundredths: 1000 },
            resize_enabled: false,
            resize_longest_dimension: 800,
            resize_filter: ResizeFilter::Lanczos3,
            output_format: OutputFormat::Png,
            jpeg_quality: 80,
            avif_quality: 80,
            avif_speed: 4,
        }
    }
}

/// Why one image's export failed. Each failure is local to its image: a
/// batch reports it and continues with the other images.
#[derive(Debug)]
pub enum ExportError {
    /// The source bytes are not a decodable image.
    SourceDecode(image::ImageError),
    /// The source has a zero side, or the bordered canvas would not fit in
    /// the address space.
    UnsupportedDimensions,
    /// The output codec rejected the image.
    Encode(image::ImageError),
}

/// One finished export: the output file's name and its encoded bytes.
#[derive(Debug)]
pub struct EncodedFile {
    pub file_name: String,
    pub bytes: Vec<u8>,
}

/// One element of a batch: the source file's stem and its raw bytes.
#[derive(Debug)]
pub struct SourceItem {
    pub stem: String,
    pub bytes: Vec<u8>,
}

/// Whether a source of this size can be bordered at all on this machine:
/// both sides positive, the grown side still a `u32`, and the canvas bytes
/// still addressable.
pub open spec fn spec_dims_supported(width: u32, height: u32, border: BorderOptions) -> bool {
    let grown = grown_size(
        longest_side(width as int, height as int),
        border.percent_hundredths as int,
    );
    &&& 0 < width
    &&& 0 < height
    &&& grown <= u32::MAX
    &&& ({
        let g = spec_geometry(width as int, height as int, border);
        4 * (g.new_width as int) * (g.new_height as int) <= usize::MAX
    })
}

/// What the encoded bytes are for each format: the exact named encoding of
/// the final raster (RGBA for PNG, RGB with alpha dropped for the others).
/// The AVIF payload is not pinned down beyond its container: it opens with
/// an ISO-BMFF box whose four type bytes spell `ftyp`.
pub open spec fn spec_encoded_ok(
    out: Seq<u8>,
    data: Seq<u8>,
    width: u32,
    height: u32,
    opts: ExportOptions,
) -> bool {
    match opts.output_format {
        OutputFormat::Png => out == png_encoding(data, width, height),
        OutputFormat::Jpeg => out == jpeg_encoding(rgb_bytes(data), width, height, opts.jpeg_quality),
        OutputFormat::Tiff => out == tiff_encoding(rgb_bytes(data), width, height),
        OutputFormat::Avif => out.len() >= 12 && out[4] == 102 && out[5] == 116 && out[6] == 121
            && out[7] == 112,
        OutputFormat::Webp => out == webp_encoding(rgb_bytes(data), width, height),
    }
}

/// The final sizes each codec is known to accept outright: any positive
/// canvas for PNG, the format's own side caps for JPEG and lossless WebP,
/// and for classic TIFF any canvas whose pixel bytes, per-row strip
/// directory and fixed tags stay inside 32-bit file offsets. AVIF makes no
/// such promise: its codec decides for itself.
pub open spec fn spec_encoder_accepts(width: int, height: int, fmt: OutputFormat) -> bool {
    match fmt {
        OutputFormat::Png => 1 <= width && 1 <= height,
        OutputFormat::Jpeg => 1 <= width <= 65535 && 1 <= height <= 65535,
        OutputFormat::Tiff => 1 <= width && 1 <= height && 3 * width * height + 8 * height + 4096
            <= u32::MAX,
        OutputFormat::Avif => false,
        OutputFormat::Webp => 1 <= width <= 16384 && 1 <= height <= 16384,
    }
}

/// The size of the raster handed to the encoder: the bordered canvas, or,
/// when resizing is on, the export-resize box it is scaled to.
pub open spec fn spec_final_dims(src: Raster, opts: ExportOptions) -> (int, int) {
    let g = spec_geometry(src.width as int, src.height as int, opts.border);
    if opts.resize_enabled {
        spec_export_resize_box(
            g.new_width as int,
            g.new_height as int,
            opts.resize_longest_dimension as int,
        )
    } else {
        (g.new_width as int, g.new_height as int)
    }
}

/// When an export owes success: the source's size is workable and the final
/// canvas is one its codec is known to accept.
pub open spec fn spec_success_owed(src: Raster, opts: ExportOptions) -> bool {
    &&& spec_dims_supported(src.width, src.height, opts.border)
    &&& spec_encoder_accepts(
        spec_final_dims(src, opts).0,
        spec_final_dims(src, opts).1,
        opts.output_format,
    )
}

/// The full export chain for a decoded source: border geometry, white
/// composite, optional longest-side resize, then the chosen encoding.
pub open spec fn spec_export_payload(out: Seq<u8>, src: Raster, opts: ExportOptions) -> bool {
    let g = spec_geometry(src.width as int, src.height as int, opts.border);
    let comp = composite_bytes(src, g);
    if opts.resize_enabled {
        let bx = spec_export_resize_box(
            g.new_width as int,
            g.new_height as int,
            opts.resize_longest_dimension as int,
        );
        let rz = resampled_exact(comp, g.new_width, g.new_height, bx.0 as u32, bx.1 as u32,
            opts.resize_filter);
        spec_encoded_ok(out, rz.data@, rz.width, rz.height, opts)
    } else {
        spec_encoded_ok(out, comp, g.new_width, g.new_height, opts)
    }
}

/// Packs an encoder's result under the output file name, or reports the
/// codec's rejection.
fn package_encoded(name: String, enc: Result<Vec<u8>, image::ImageError>) -> (r: Result<
    EncodedFile,
    ExportError,
>)
    ensures
        enc matches Ok(b) ==> r matches Ok(f) && f.bytes@ == b@ && f.file_name@ == name@,
        enc is Err ==> (r matches Err(e) && e is Encode),
{
    match enc {
        Ok(bytes) => Ok(EncodedFile { file_name: name, bytes }),
        Err(e) => Err(ExportError::Encode(e)),
    }
}

/// Encoder dispatch: routes the final raster to the codec the options chose,
/// with that codec's parameters, and names the file `{stem}_bordered.{ext}`.
pub fn encode_raster(img: &Raster, opts: &ExportOptions, stem: &str) -> (r: Result<
    EncodedFile,
    ExportError,
>)
    requires
        img.wf(),
        opts.wf(),
    ensures
        r matches Ok(f) ==> f.file_name@ == spec_output_file_name(stem@, opts.output_format)
            && spec_encoded_ok(f.bytes@, img.data@, img.width, img.height, *opts),
        r matches Err(e) ==> e is Encode,
        spec_encoder_accepts(img.width as int, img.height as int, opts.output_format) ==> r is Ok,
{
    let name = output_file_name(stem, opts.output_format);
    match opts.output_format {
        OutputFormat::Png => package_encoded(name, encode_png(img)),
        OutputFormat::Jpeg => {
            let rgb = drop_alpha(img);
            package_encoded(name, encode_jpeg(&rgb, img.width, img.height, opts.jpeg_quality))
        },
        OutputFormat::Tiff => {
            let rgb = drop_alpha(img);
            package_encoded(name, encode_tiff(&rgb, img.width, img.height))
        },
        OutputFormat::Avif => {
            let rgb = drop_alpha(img);
            package_encoded(
                name,
                encode_avif(&rgb, img.width, img.height, opts.avif_speed, opts.avif_quality),
            )
        },
        OutputFormat::Webp => {
            let rgb = drop_alpha(img);
            package_encoded(name, encode_webp(&rgb, img.width, img.height))
        },
    }
}

/// Checks that a source of this size can be bordered on this machine, and
/// hands back the border geometry when it can.
fn checked_geometry(width: u32, height: u32, border: &BorderOptions) -> (r: Option<Geometry>)
    requires
        border.wf(),
    ensures
        r is Some <==> spec_dims_supported(width, height, *border),
        r matches Some(g) ==> g == spec_geometry(width as int, height as int, *border)
            && g.x_offset + width <= g.new_width && g.y_offset + height <= g.new_height
            && g.new_width >= width && g.new_height >= height && 4 * (g.new_width as int) * (
        g.new_height as int) <= usize::MAX,
{
    if width == 0 || height == 0 {
        return None;
    }
    let longest: u32 = if width >= height {
        width
    } else {
        height
    };
    proof {
        assert((longest as int) * ((PERCENT_SCALE + border.percent_hundredths) as int)
            <= u64::MAX) by (nonlinear_arith)
            requires
                0 <= (longest as int) < 0x1_0000_0000,
                0 <= ((PERCENT_SCALE + border.percent_hundredths) as int) <= 15000,
        ;
    }
    let scaled: u64 = (longest as u64) * ((PERCENT_SCALE + border.percent_hundredths) as u64);
    let grown: u64 = scaled / (PERCENT_SCALE as u64);
    if grown > (u32::MAX as u64) {
        return None;
    }
    let g = compute_geometry(width, height, border);
    proof {
        assert(0 <= 4 * (g.new_width as int) * (g.new_height as int) <= u128::MAX)
            by (nonlinear_arith)
            requires
                0 <= (g.new_width as int) < 0x1_0000_0000,
                0 <= (g.new_height as int) < 0x1_0000_0000,
        ;
    }
    let total: u128 = 4u128 * (g.new_width as u128) * (g.new_height as u128);
    if total > (usize::MAX as u128) {
        return None;
    }
    proof {
        lemma_offsets_within_canvas(width as int, height as int, *border);
    }
    Some(g)
}

/// Borders a decoded source and, when resizing is on, scales the canvas so
/// its longest side meets the requested dimension.
pub fn render_for_export(src: &Raster, opts: &ExportOptions) -> (r: Result<Raster, ExportError>)
    requires
        src.wf(),
        opts.wf(),
    ensures
        r is Ok <==> spec_dims_supported(src.width, src.height, opts.border),
        r matches Err(e) ==> e is UnsupportedDimensions,
        r matches Ok(out) ==> ({
            let g = spec_geometry(src.width as int, src.height as int, opts.border);
            let comp = composite_bytes(*src, g);
            &&& out.wf()
            &&& (out.width as int, out.height as int) == spec_final_dims(*src, *opts)
            &&& if opts.resize_enabled {
                let bx = spec_export_resize_box(
                    g.new_width as int,
                    g.new_height as int,
                    opts.resize_longest_dimension as int,
                );
                out == resampled_exact(comp, g.new_width, g.new_height, bx.0 as u32,
                    bx.1 as u32, opts.resize_filter) && out.width == bx.0 && out.height == bx.1
            } else {
                out.width == g.new_width && out.height == g.new_height && out.data@ == comp
            }
        }),
{
    let g = match checked_geometry(src.width, src.height, &opts.border) {
        Some(g) => g,
        None => {
            return Err(ExportError::UnsupportedDimensions);
        },
    };
    let comp = composite_onto_white(src, &g);
    if opts.resize_enabled {
        let bx = export_resize_box(comp.width, comp.height, opts.resize_longest_dimension);
        Ok(resample_exact(&comp, bx.0, bx.1, opts.resize_filter))
    } else {
        Ok(comp)
    }
}

/// Exports one decoded source: border, composite, optional resize, encode.
pub fn export_image(src: &Raster, opts: &ExportOptions, stem: &str) -> (r: Result<
    EncodedFile,
    ExportError,
>)
    requires
        src.wf(),
        opts.wf(),
    ensures
        (r matches Err(e) && e is UnsupportedDimensions) <==> !spec_dims_supported(
            src.width,
            src.height,
            opts.border,
        ),
        r matches Err(e) ==> e is UnsupportedDimensions || e is Encode,
        r matches Ok(f) ==> f.file_name@ == spec_output_file_name(stem@, opts.output_format)
            && spec_export_payload(f.bytes@, *src, *opts),
        spec_success_owed(*src, *opts) ==> r is Ok,
{
    let rendered = match render_for_export(src, opts) {
        Ok(out) => out,
        Err(e) => {
            return Err(e);
        },
    };
    encode_raster(&rendered, opts, stem)
}

/// The outcome owed for one batch element: a decode failure is reported as
/// such; an unusable size is reported as such; a success carries the
/// `{stem}_bordered.{ext}` name and the encoded payload of that element's
/// own bytes, and of nothing else.
pub open spec fn spec_item_outcome(
    bytes: Seq<u8>,
    opts: ExportOptions,
    stem: Seq<char>,
    r: Result<EncodedFile, ExportError>,
) -> bool {
    match decoded_raster(bytes) {
        Option::None => r matches Err(e) && e is SourceDecode,
        Option::Some(img) => {
            &&& !(r matches Err(e) && e is SourceDecode)
            &&& ((r matches Err(e) && e is UnsupportedDimensions) <==> !spec_dims_supported(
                img.width,
                img.height,
                opts.border,
            ))
            &&& (r matches Ok(f) ==> f.file_name@ == spec_output_file_name(stem, opts.output_format)
                && spec_export_payload(f.bytes@, img, opts))
            &&& (spec_success_owed(img, opts) ==> r is Ok)
        },
    }
}

/// Exports one source from its raw bytes: decode, border, composite,
/// optional resize, encode.
pub fn export_from_bytes(bytes: &[u8], opts: &ExportOptions, stem: &str) -> (r: Result<
    EncodedFile,
    ExportError,
>)
    requires
        opts.wf(),
    ensures
        spec_item_outcome(bytes@, *opts, stem@, r),
{
    let img = match decode_rgba(bytes) {
        Ok(img) => img,
        Err(e) => {
            return Err(ExportError::SourceDecode(e));
        },
    };
    export_image(&img, opts, stem)
}

/// Exports a whole batch, one result per source in order. Every element is
/// processed independently: its entry depends on its own bytes and stem
/// alone, so a corrupt source leaves every other result untouched.
pub fn export_batch(items: &Vec<SourceItem>, opts: &ExportOptions) -> (results: Vec<
    Result<EncodedFile, ExportError>,
>)
    requires
        opts.wf(),
    ensures
        results.len() == items.len(),
        forall|i: int|
            0 <= i < items.len() ==> spec_item_outcome(
                items[i].bytes@,
                *opts,
                items[i].stem@,
                #[trigger] results[i],
            ),
{
    let mut results: Vec<Result<EncodedFile, ExportError>> = Vec::new();
    let mut k: usize = 0;
    while k < items.len()
        invariant
            opts.wf(),
            k <= items.len(),
            results.len() == k,
            forall|i: int|
                0 <= i < k ==> spec_item_outcome(
                    items[i].bytes@,
                    *opts,
                    items[i].stem@,
                    #[trigger] results[i],
                ),
        decreases items.len() - k,
    {
        let item = &items[k];
        results.push(export_from_bytes(item.bytes.as_slice(), opts, item.stem.as_str()));
        k = k + 1;
    }
    results
}

/// Longest side of the box a preview is fitted into.
pub const PREVIEW_MAX_DIM: u32 = 500;

/// What a rendered preview is: the bordered composite of the source,
/// downscaled into the preview box, and exactly the composite itself when
/// that already fits — a preview is never upscaled.
pub open spec fn spec_preview_result(src: Raster, border: BorderOptions, out: Raster) -> bool {
    let g = spec_geometry(src.width as int, src.height as int, border);
    let comp = composite_bytes(src, g);
    let bx = spec_preview_fit_box(
        g.new_width as int,
        g.new_height as int,
        PREVIEW_MAX_DIM as int,
        PREVIEW_MAX_DIM as int,
    );
    &&& out.wf()
    &&& out == resampled(comp, g.new_width, g.new_height, bx.0 as u32, bx.1 as u32,
        ResizeFilter::Lanczos3)
    &&& out.width <= PREVIEW_MAX_DIM || out.width == g.new_width
    &&& out.height <= PREVIEW_MAX_DIM || out.height == g.new_height
    &&& (g.new_width <= PREVIEW_MAX_DIM && g.new_height <= PREVIEW_MAX_DIM ==> out.width
        == g.new_width && out.height == g.new_height && out.data@ == comp)
}

/// Renders the on-screen preview for a decoded source: the same border
/// geometry and white composite as an export, then a downscale into the
/// preview box. A composite that already fits the box is handed back
/// exactly as it is — a preview is never upscaled.
pub fn preview_image(src: &Raster, border: &BorderOptions) -> (r: Result<Raster, ExportError>)
    requires
        src.wf(),
        border.wf(),
    ensures
        r is Ok <==> spec_dims_supported(src.width, src.height, *border),
        r matches Err(e) ==> e is UnsupportedDimensions,
        r matches Ok(out) ==> spec_preview_result(*src, *border, out),
{
    let g = match checked_geometry(src.width, src.height, border) {
        Some(g) => g,
        None => {
            return Err(ExportError::UnsupportedDimensions);
        },
    };
    let comp = composite_onto_white(src, &g);
    let bx = preview_fit_box(comp.width, comp.height, PREVIEW_MAX_DIM, PREVIEW_MAX_DIM);
    Ok(resample_to_fit(&comp, bx.0, bx.1, ResizeFilter::Lanczos3))
}

/// Renders the preview straight from a source file's bytes.
pub fn preview_from_bytes(bytes: &[u8], border: &BorderOptions) -> (r: Result<Raster, ExportError>)
    requires
        border.wf(),
    ensures
        decoded_raster(bytes@) is None <==> (r matches Err(e) && e is SourceDecode),
        decoded_raster(bytes@) matches Some(img) ==> (r is Ok <==> spec_dims_supported(
            img.width,
            img.height,
            *border,
        )),
        decoded_raster(bytes@) matches Some(img) ==> (r matches Ok(out)
            ==> spec_preview_result(img, *border, out)),
{
    let img = match decode_rgba(bytes) {
        Ok(img) => img,
        Err(e) => {
            return Err(ExportError::SourceDecode(e));
        },
    };
    preview_image(&img, border)
}

} // verus!
