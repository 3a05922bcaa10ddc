//! End-to-end scenarios through the full request-to-image pipeline.

use qr_render::response::{get_qr, RenderResponse};

fn content_type(r: &RenderResponse) -> &str {
    r.content_type.as_deref().unwrap_or("")
}

fn png_dimensions(body: &[u8]) -> (u32, u32) {
    let img = image::load_from_memory(body).expect("body must be a valid image");
    (img.width(), img.height())
}

#[test]
fn plain_request_gives_png_of_default_size() {
    let r = get_qr("qr", Some("hello"), None, None, None);
    assert_eq!(r.status, 200);
    assert_eq!(content_type(&r), "image/png");
    let (w, h) = png_dimensions(&r.body);
    assert_eq!(w, h);
    assert!(w.min(h) >= 1024);
}

#[test]
fn rendered_png_decodes_back_to_the_payload() {
    let r = get_qr("qr", Some("hello"), Some("200"), None, None);
    assert_eq!(r.status, 200);
    let img = image::load_from_memory(&r.body).unwrap().to_luma8();
    let mut prepared = rqrr::PreparedImage::prepare(img);
    let grids = prepared.detect_grids();
    assert_eq!(grids.len(), 1);
    let (_meta, content) = grids[0].decode().unwrap();
    assert_eq!(content, "hello");
}

#[test]
fn svg_request_gives_vector_markup() {
    let r = get_qr("qr", Some("hello"), None, Some("svg"), None);
    assert_eq!(r.status, 200);
    assert_eq!(content_type(&r), "image/svg+xml");
    let body = String::from_utf8(r.body).unwrap();
    assert!(body.starts_with("<?xml"));
    assert!(body.contains("<svg"));
    assert!(body.ends_with("</svg>"));
}

#[test]
fn small_size_is_honored() {
    let r = get_qr("qr", Some("hello"), Some("50"), None, None);
    assert_eq!(r.status, 200);
    let (w, h) = png_dimensions(&r.body);
    assert!(w.min(h) >= 50);
}

#[test]
fn sizes_in_range_reach_the_shorter_dimension() {
    for s in [1u32, 37, 100, 1024, 4096] {
        let r = get_qr("qr", Some("hello"), Some(&s.to_string()), None, None);
        assert_eq!(r.status, 200);
        let (w, h) = png_dimensions(&r.body);
        assert!(w.min(h) >= s);
    }
}

#[test]
fn oversize_is_capped_at_4096() {
    let capped = get_qr("qr", Some("hello"), Some("9999"), None, None);
    let at_cap = get_qr("qr", Some("hello"), Some("4096"), None, None);
    assert_eq!(capped.status, 200);
    assert_eq!(capped.body, at_cap.body);
}

#[test]
fn size_zero_is_clamped_to_one() {
    let zero = get_qr("qr", Some("hello"), Some("0"), None, None);
    let one = get_qr("qr", Some("hello"), Some("1"), None, None);
    assert_eq!(zero.status, 200);
    assert_eq!(zero.body, one.body);
}

#[test]
fn empty_payload_is_still_encodable() {
    let r = get_qr("qr", Some(""), None, None, None);
    assert_eq!(r.status, 200);
    assert_eq!(content_type(&r), "image/png");
}

#[test]
fn base64_bmp_gives_data_uri() {
    let r = get_qr("qr", Some("hello"), None, Some("bmp"), Some("true"));
    assert_eq!(r.status, 200);
    assert_eq!(content_type(&r), "text/plain");
    let body = String::from_utf8(r.body).unwrap();
    assert!(body.starts_with("data:image/bmp;base64,"));
}

#[test]
fn missing_data_is_a_client_error() {
    let r = get_qr("qr", None, None, None, None);
    assert_eq!(r.status, 400);
    assert_eq!(r.body, b"Missing data");
    assert!(r.content_type.is_none());
}

#[test]
fn invalid_size_is_a_client_error() {
    let r = get_qr("qr", Some("hello"), Some("12a"), None, None);
    assert_eq!(r.status, 400);
    assert_eq!(r.body, b"Invalid size");
}

#[test]
fn overlong_payload_on_the_svg_branch_gives_invalid_data() {
    let payload = "x".repeat(8000);
    let r = get_qr("qr", Some(&payload), None, Some("svg"), None);
    assert_eq!(r.status, 400);
    assert_eq!(r.body, b"Invalid data");
}

#[test]
fn overlong_payload_on_the_raster_branch_gives_invalid_data() {
    let payload = "x".repeat(8000);
    let r = get_qr("qr", Some(&payload), None, None, None);
    assert_eq!(r.status, 400);
    assert_eq!(r.body, b"Invalid data");
}

#[test]
fn empty_size_and_absent_size_give_identical_bytes() {
    let empty = get_qr("qr", Some("hello"), Some(""), None, None);
    let absent = get_qr("qr", Some("hello"), None, None, None);
    assert_eq!(empty.status, 200);
    assert_eq!(empty.body, absent.body);
    assert_eq!(
        empty.content_type.as_deref(),
        absent.content_type.as_deref()
    );
}

#[test]
fn truthy_base64_tokens_give_data_uris() {
    for token in ["", "on", "true"] {
        let r = get_qr("qr", Some("hello"), None, None, Some(token));
        assert_eq!(r.status, 200);
        assert_eq!(content_type(&r), "text/plain");
        let body = String::from_utf8(r.body).unwrap();
        assert!(body.starts_with("data:image/png;base64,"));
    }
}

#[test]
fn falsy_base64_tokens_give_raw_bytes() {
    let raw = get_qr("qr", Some("hello"), None, None, None);
    for token in ["off", "false", "banana"] {
        let r = get_qr("qr", Some("hello"), None, None, Some(token));
        assert_eq!(r.status, 200);
        assert_eq!(content_type(&r), "image/png");
        assert_eq!(r.body, raw.body);
    }
}

#[test]
fn format_parameter_beats_the_route_extension() {
    let r = get_qr("qr.png", Some("hello"), None, Some("svg"), None);
    assert_eq!(r.status, 200);
    assert_eq!(content_type(&r), "image/svg+xml");
}

#[test]
fn jpg_route_extension_selects_jpeg() {
    let r = get_qr("qr.jpg", Some("hello"), None, None, None);
    assert_eq!(r.status, 200);
    assert_eq!(content_type(&r), "image/jpeg");
    assert_eq!(&r.body[..2], &[0xff, 0xd8]);
}

#[test]
fn bmp_body_is_a_bmp_container() {
    let r = get_qr("qr", Some("hello"), None, Some("bmp"), None);
    assert_eq!(r.status, 200);
    assert_eq!(content_type(&r), "image/bmp");
    assert_eq!(&r.body[..2], b"BM");
}

#[test]
fn unimplemented_format_falls_back_to_png_bytes() {
    let r = get_qr("qr", Some("hello"), None, Some("gif"), None);
    assert_eq!(r.status, 200);
    assert_eq!(content_type(&r), "image/gif");
    let header: &[u8] = &[0x89, b'P', b'N', b'G'];
    assert_eq!(&r.body[..4], header);
}

#[test]
fn svg_route_extension_selects_svg_without_format_parameter() {
    let r = get_qr("qr.svg", Some("hello"), None, None, None);
    assert_eq!(r.status, 200);
    assert_eq!(content_type(&r), "image/svg+xml");
}

#[test]
fn base64_applies_to_the_svg_branch_too() {
    let r = get_qr("qr", Some("hello"), None, Some("svg"), Some("on"));
    assert_eq!(r.status, 200);
    assert_eq!(content_type(&r), "text/plain");
    let body = String::from_utf8(r.body).unwrap();
    assert!(body.starts_with("data:image/svg+xml;base64,"));
}
