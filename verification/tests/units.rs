//! Unit tests of the pipeline's stages.

use qr_render::data_uri::to_base64;
use qr_render::params::{
    empty_string_as_none, get_format_from_filename, resolve_format, string_as_bool,
    ImageFormatKind, QrError,
};
use qr_render::raster::render_raster;
use qr_render::symbol::SymbolMatrix;

#[test]
fn bool_tokens() {
    assert!(string_as_bool(Some("on")));
    assert!(string_as_bool(Some("true")));
    assert!(string_as_bool(Some("")));
    assert!(!string_as_bool(Some("off")));
    assert!(!string_as_bool(Some("false")));
    assert!(!string_as_bool(Some("yes")));
    assert!(!string_as_bool(Some("TRUE")));
    assert!(!string_as_bool(None));
}

#[test]
fn size_parsing() {
    assert_eq!(empty_string_as_none(None), Ok(None));
    assert_eq!(empty_string_as_none(Some("")), Ok(None));
    assert_eq!(empty_string_as_none(Some("123")), Ok(Some(123)));
    assert_eq!(empty_string_as_none(Some("0")), Ok(Some(0)));
    assert_eq!(empty_string_as_none(Some("4294967295")), Ok(Some(u32::MAX)));
    assert_eq!(
        empty_string_as_none(Some("4294967296")),
        Err(QrError::InvalidSize)
    );
    assert_eq!(empty_string_as_none(Some("12a")), Err(QrError::InvalidSize));
    assert_eq!(empty_string_as_none(Some("-1")), Err(QrError::InvalidSize));
    assert_eq!(empty_string_as_none(Some(" 1")), Err(QrError::InvalidSize));
}

#[test]
fn filename_extensions() {
    assert_eq!(
        get_format_from_filename("a.png"),
        Some(ImageFormatKind::Png)
    );
    assert_eq!(
        get_format_from_filename("a.PNG"),
        Some(ImageFormatKind::Png)
    );
    assert_eq!(
        get_format_from_filename("a.jpg"),
        Some(ImageFormatKind::Jpeg)
    );
    assert_eq!(
        get_format_from_filename("a.jpeg"),
        Some(ImageFormatKind::Jpeg)
    );
    assert_eq!(get_format_from_filename("a.JPG"), None);
    assert_eq!(
        get_format_from_filename("a.gif"),
        Some(ImageFormatKind::Gif)
    );
    assert_eq!(
        get_format_from_filename("a.bmp"),
        Some(ImageFormatKind::Bmp)
    );
    assert_eq!(
        get_format_from_filename("a.ico"),
        Some(ImageFormatKind::Ico)
    );
    assert_eq!(
        get_format_from_filename("a.tif"),
        Some(ImageFormatKind::Tiff)
    );
    assert_eq!(
        get_format_from_filename("a.tiff"),
        Some(ImageFormatKind::Tiff)
    );
    assert_eq!(
        get_format_from_filename("a.webp"),
        Some(ImageFormatKind::WebP)
    );
    assert_eq!(get_format_from_filename("plain"), None);
    assert_eq!(get_format_from_filename(".svg"), None);
}

#[test]
fn format_resolution() {
    assert_eq!(resolve_format(Some("svg"), "a.png"), ImageFormatKind::Svg);
    assert_eq!(resolve_format(None, "a.svg"), ImageFormatKind::Svg);
    assert_eq!(resolve_format(Some("png"), "a.svg"), ImageFormatKind::Png);
    assert_eq!(resolve_format(Some("jpeg"), "a"), ImageFormatKind::Jpeg);
    assert_eq!(resolve_format(Some("x.png"), "a"), ImageFormatKind::Png);
    assert_eq!(resolve_format(Some("nope"), "a.gif"), ImageFormatKind::Gif);
    assert_eq!(resolve_format(Some(""), "a.bmp"), ImageFormatKind::Bmp);
    assert_eq!(resolve_format(None, "a"), ImageFormatKind::Png);
    assert_eq!(resolve_format(Some("SVG"), "a"), ImageFormatKind::Png);
}

#[test]
fn data_uri_wraps_and_encodes() {
    let bytes = vec![1u8, 2, 3];
    let uri = to_base64(&bytes, ImageFormatKind::Png);
    assert_eq!(uri, "data:image/png;base64,AQID");
    let empty: Vec<u8> = Vec::new();
    assert_eq!(
        to_base64(&empty, ImageFormatKind::Jpeg),
        "data:image/jpeg;base64,"
    );
    let two = vec![255u8, 255];
    assert_eq!(
        to_base64(&two, ImageFormatKind::Svg),
        "data:image/svg+xml;base64,//8"
    );
}

#[test]
fn raster_rendering_scales_and_places_modules() {
    // An all-light symbol of the smallest width, with one dark module at
    // row 0, column 1.
    let width = 21usize;
    let mut modules = vec![false; width * width];
    modules[1] = true;
    let m = SymbolMatrix { width, modules };
    // 21 modules + 4 quiet modules a side = 29; for size 100 each module
    // becomes ceil(100 / 29) = 4 pixels, so the image is 116 a side.
    let buf = render_raster(&m, 100);
    assert_eq!(buf.width, 116);
    assert_eq!(buf.height, 116);
    assert_eq!(buf.pixels.len(), 116 * 116);
    let px = |x: usize, y: usize| buf.pixels[y * 116 + x];
    // Quiet zone is light.
    assert_eq!(px(0, 0), 255);
    assert_eq!(px(15, 15), 255);
    // The dark module spans pixels x in [20, 24), y in [16, 20).
    assert_eq!(px(20, 16), 0);
    assert_eq!(px(23, 19), 0);
    assert_eq!(px(19, 16), 255);
    assert_eq!(px(24, 16), 255);
    assert_eq!(px(20, 20), 255);
}

#[test]
fn minimum_size_one_renders_one_pixel_per_module() {
    let width = 21usize;
    let modules = vec![false; width * width];
    let m = SymbolMatrix { width, modules };
    let buf = render_raster(&m, 1);
    assert_eq!(buf.width, 29);
    assert_eq!(buf.height, 29);
    assert!(buf.pixels.iter().all(|&p| p == 255));
}
