use bordered::geometry::{compute_geometry, BorderOptions};
use bordered::pipeline::{
    export_batch, export_from_bytes, export_image, preview_from_bytes, preview_image,
    ExportError, ExportOptions, SourceItem,
};
use bordered::raster::{composite_onto_white, Raster};
use bordered::resize::ResizeFilter;
use bordered::codec::OutputFormat;

fn border(symmetrical: bool, percent_hundredths: u32) -> BorderOptions {
    BorderOptions { symmetrical, percent_hundredths }
}

fn options(b: BorderOptions, format: OutputFormat) -> ExportOptions {
    let mut o = ExportOptions::default();
    o.border = b;
    o.output_format = format;
    o
}

fn solid_raster(width: u32, height: u32, rgba: [u8; 4]) -> Raster {
    let mut data = Vec::new();
    for _ in 0..(width * height) {
        data.extend_from_slice(&rgba);
    }
    Raster { width, height, data }
}

/// PNG bytes of a solid-colour source, made with the imaging crate itself.
fn solid_png_bytes(width: u32, height: u32, rgba: [u8; 4]) -> Vec<u8> {
    let img = image::RgbaImage::from_pixel(width, height, image::Rgba(rgba));
    let mut cur = std::io::Cursor::new(Vec::new());
    image::DynamicImage::ImageRgba8(img)
        .write_to(&mut cur, image::ImageFormat::Png)
        .unwrap();
    cur.into_inner()
}

#[test]
fn default_options_match_startup_state() {
    let o = ExportOptions::default();
    assert_eq!(o.border, border(false, 1000));
    assert!(!o.resize_enabled);
    assert_eq!(o.resize_longest_dimension, 800);
    assert_eq!(o.resize_filter, ResizeFilter::Lanczos3);
    assert_eq!(o.output_format, OutputFormat::Png);
    assert_eq!(o.jpeg_quality, 80);
    assert_eq!(o.avif_quality, 80);
    assert_eq!(o.avif_speed, 4);
}

#[test]
fn png_export_round_trips_white_source() {
    // A 100x100 white source with a 10% symmetric border: the written PNG
    // decodes back to 110x110 opaque white, the centre equal to the source.
    let src = solid_raster(100, 100, [255, 255, 255, 255]);
    let opts = options(border(true, 1000), OutputFormat::Png);
    let f = export_image(&src, &opts, "white").unwrap();
    assert_eq!(f.file_name, "white_bordered.png");
    let img = image::load_from_memory(&f.bytes).unwrap().into_rgba8();
    assert_eq!(img.dimensions(), (110, 110));
    for p in img.pixels() {
        assert_eq!(p.0, [255, 255, 255, 255]);
    }
}

#[test]
fn png_export_places_pixels_exactly() {
    // Two coloured pixels, 50% symmetric border: canvas 3x2, source at (0, 0).
    let mut src = solid_raster(2, 1, [200, 10, 10, 255]);
    src.data[4] = 10;
    src.data[5] = 10;
    src.data[6] = 200;
    let opts = options(border(true, 5000), OutputFormat::Png);
    let f = export_image(&src, &opts, "two").unwrap();
    let img = image::load_from_memory(&f.bytes).unwrap().into_rgba8();
    assert_eq!(img.dimensions(), (3, 2));
    assert_eq!(img.get_pixel(0, 0).0, [200, 10, 10, 255]);
    assert_eq!(img.get_pixel(1, 0).0, [10, 10, 200, 255]);
    for (x, y) in [(2, 0), (0, 1), (1, 1), (2, 1)] {
        assert_eq!(img.get_pixel(x, y).0, [255, 255, 255, 255]);
    }
}

#[test]
fn jpeg_export_writes_decodable_file() {
    let src = solid_raster(40, 20, [120, 130, 140, 255]);
    let opts = options(border(false, 1000), OutputFormat::Jpeg);
    let f = export_image(&src, &opts, "photo").unwrap();
    assert_eq!(f.file_name, "photo_bordered.jpg");
    let img = image::load_from_memory(&f.bytes).unwrap();
    // Asymmetric 10% on longest side 40: a 44x44 square canvas.
    assert_eq!(image::GenericImageView::dimensions(&img), (44, 44));
}

#[test]
fn tiff_export_round_trips_rgb_exactly() {
    let src = solid_raster(5, 4, [9, 88, 177, 255]);
    let opts = options(border(true, 0), OutputFormat::Tiff);
    let f = export_image(&src, &opts, "scan").unwrap();
    assert_eq!(f.file_name, "scan_bordered.tiff");
    let img = image::load_from_memory(&f.bytes).unwrap().into_rgb8();
    assert_eq!(img.dimensions(), (5, 4));
    for p in img.pixels() {
        assert_eq!(p.0, [9, 88, 177]);
    }
}

#[test]
fn webp_export_is_lossless() {
    let src = solid_raster(6, 3, [31, 64, 97, 255]);
    let opts = options(border(true, 0), OutputFormat::Webp);
    let f = export_image(&src, &opts, "art").unwrap();
    assert_eq!(f.file_name, "art_bordered.webp");
    let img = image::load_from_memory(&f.bytes).unwrap().into_rgb8();
    assert_eq!(img.dimensions(), (6, 3));
    for p in img.pixels() {
        assert_eq!(p.0, [31, 64, 97]);
    }
}

#[test]
fn avif_export_produces_avif_container() {
    let src = solid_raster(16, 16, [90, 90, 90, 255]);
    let mut opts = options(border(false, 1000), OutputFormat::Avif);
    opts.avif_speed = 10;
    let f = export_image(&src, &opts, "clip").unwrap();
    assert_eq!(f.file_name, "clip_bordered.avif");
    // An AVIF file starts with an ISO-BMFF "ftyp" box.
    assert!(f.bytes.len() > 12);
    assert_eq!(&f.bytes[4..8], b"ftyp");
}

#[test]
fn resize_scales_longest_side_to_target() {
    let src = solid_raster(10, 10, [50, 60, 70, 255]);
    let mut opts = options(border(false, 0), OutputFormat::Png);
    opts.resize_enabled = true;
    opts.resize_longest_dimension = 5;
    let f = export_image(&src, &opts, "small").unwrap();
    let img = image::load_from_memory(&f.bytes).unwrap().into_rgba8();
    assert_eq!(img.dimensions(), (5, 5));
}

#[test]
fn resize_rounds_scaled_side_toward_zero() {
    // Canvas 1000x999 resized to longest side 100: the shorter side is
    // floor(100 * 999 / 1000) = 99, and the longest side is exactly 100.
    let src = solid_raster(1000, 999, [20, 30, 40, 255]);
    let mut opts = options(border(true, 0), OutputFormat::Png);
    opts.resize_enabled = true;
    opts.resize_longest_dimension = 100;
    let f = export_image(&src, &opts, "tall").unwrap();
    let img = image::load_from_memory(&f.bytes).unwrap().into_rgba8();
    assert_eq!(img.dimensions(), (100, 99));
}

#[test]
fn resize_disabled_keeps_canvas_size() {
    let src = solid_raster(10, 10, [50, 60, 70, 255]);
    let opts = options(border(false, 0), OutputFormat::Png);
    let f = export_image(&src, &opts, "same").unwrap();
    let img = image::load_from_memory(&f.bytes).unwrap().into_rgba8();
    assert_eq!(img.dimensions(), (10, 10));
}

#[test]
fn zero_sized_source_is_rejected() {
    let src = Raster { width: 0, height: 0, data: Vec::new() };
    let opts = options(border(true, 1000), OutputFormat::Png);
    let r = export_image(&src, &opts, "empty");
    assert!(matches!(r, Err(ExportError::UnsupportedDimensions)));
}

#[test]
fn corrupt_bytes_are_a_decode_error() {
    let opts = options(border(true, 1000), OutputFormat::Png);
    let r = export_from_bytes(&[], &opts, "corrupt");
    assert!(matches!(r, Err(ExportError::SourceDecode(_))));
    let r2 = export_from_bytes(&[1, 2, 3, 4], &opts, "garbage");
    assert!(matches!(r2, Err(ExportError::SourceDecode(_))));
}

#[test]
fn batch_isolates_a_corrupt_source() {
    // Five sources, the third a zero-byte file: the other four must still
    // export, in order, and only the third reports a failure.
    let good = solid_png_bytes(10, 10, [10, 200, 10, 255]);
    let mut items = Vec::new();
    for (i, name) in ["a", "b", "c", "d", "e"].iter().enumerate() {
        let bytes = if i == 2 { Vec::new() } else { good.clone() };
        items.push(SourceItem { stem: name.to_string(), bytes });
    }
    let opts = options(border(false, 1000), OutputFormat::Png);
    let results = export_batch(&items, &opts);
    assert_eq!(results.len(), 5);
    for (i, r) in results.iter().enumerate() {
        if i == 2 {
            assert!(matches!(r, Err(ExportError::SourceDecode(_))));
        } else {
            let f = r.as_ref().unwrap();
            assert_eq!(f.file_name, format!("{}_bordered.png", ["a", "b", "c", "d", "e"][i]));
            let img = image::load_from_memory(&f.bytes).unwrap().into_rgba8();
            assert_eq!(img.dimensions(), (11, 11));
        }
    }
}

#[test]
fn oversized_jpeg_is_an_encode_error() {
    // JPEG cannot hold a side above 65535: the codec rejects the canvas and
    // the failure is reported as an encode error, not a panic.
    let src = solid_raster(70000, 1, [1, 2, 3, 255]);
    let opts = options(border(true, 0), OutputFormat::Jpeg);
    let r = export_image(&src, &opts, "wide");
    assert!(matches!(r, Err(ExportError::Encode(_))));
}

#[test]
fn empty_batch_yields_no_results() {
    let opts = options(border(false, 1000), OutputFormat::Png);
    let results = export_batch(&Vec::new(), &opts);
    assert!(results.is_empty());
}

#[test]
fn preview_keeps_fitting_composite_unchanged() {
    // The composite of a 100x100 source with a 10% border fits the 500-box:
    // the preview is that composite exactly, not a resample of it.
    let src = solid_raster(100, 100, [77, 88, 99, 255]);
    let b = border(true, 1000);
    let out = preview_image(&src, &b).unwrap();
    let comp = composite_onto_white(&src, &compute_geometry(100, 100, &b));
    assert_eq!(out.width, 110);
    assert_eq!(out.height, 110);
    assert_eq!(out.data, comp.data);
}

#[test]
fn preview_downscales_large_composite() {
    let src = solid_raster(1000, 1000, [10, 10, 10, 255]);
    let out = preview_image(&src, &border(false, 1000)).unwrap();
    assert_eq!((out.width, out.height), (500, 500));
    assert_eq!(out.data.len(), 4 * 500 * 500);
}

#[test]
fn preview_from_corrupt_bytes_fails() {
    let r = preview_from_bytes(&[], &border(true, 1000));
    assert!(matches!(r, Err(ExportError::SourceDecode(_))));
}

#[test]
fn preview_from_bytes_renders_first_image() {
    let bytes = solid_png_bytes(60, 30, [5, 6, 7, 255]);
    let out = preview_from_bytes(&bytes, &border(true, 1000)).unwrap();
    // Longest side 60 grows to 66: delta 6 on each axis.
    assert_eq!((out.width, out.height), (66, 36));
}
