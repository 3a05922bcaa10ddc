//! Response assembly: the request-to-image pipeline, from raw request
//! inputs to a status code, an optional content type, and body bytes.

use vstd::prelude::*;
use vstd::utf8::encode_utf8;

use crate::data_uri::{data_uri_chars, to_base64};
use crate::encode::{encode_image, encoding_of, mime_of, mime_of_spec};
use crate::params::{
    opt_str_view, request_choice, resolve_request, ImageFormatKind, QrError, RenderRequest,
};
use crate::raster::{raster_dim, raster_pixels, render_raster};
use crate::symbol::{qr_generate, qr_symbol_of, svg_render, svg_render_of};

verus! {

/// An HTTP-style response: status code, optional content type, body bytes.
pub struct RenderResponse {
    pub status: u16,
    /// The value of the one `Content-Type` header, or `None` to leave the
    /// framework's default untouched.
    pub content_type: Option<String>,
    pub body: Vec<u8>,
}

pub open spec fn opt_string_view(o: Option<String>) -> Option<Seq<char>> {
    match o {
        Some(s) => Some(s@),
        None => None,
    }
}

impl RenderResponse {
    /// Whether this response carries the given status, content type and
    /// body.
    pub open spec fn corresponds(self, t: (int, Option<Seq<char>>, Seq<u8>)) -> bool {
        &&& self.status as int == t.0
        &&& opt_string_view(self.content_type) == t.1
        &&& self.body@ == t.2
    }
}

/// The response of each error: validation errors are client errors with a
/// short diagnostic body and no content-type override; an encoder-level
/// failure is a server error.
pub open spec fn error_response(e: QrError) -> (int, Option<Seq<char>>, Seq<u8>) {
    match e {
        QrError::MissingPayload => (400, None, encode_utf8("Missing data"@)),
        QrError::InvalidSize => (400, None, encode_utf8("Invalid size"@)),
        QrError::InvalidPayload => (400, None, encode_utf8("Invalid data"@)),
        QrError::EncodeFailure => (500, None, encode_utf8("Encoding failed"@)),
    }
}

/// A successful body, assembled: wrapped as a plain-text data URI when the
/// base64 flag is set, raw bytes under the format's media type otherwise.
pub open spec fn assembled(mime: Seq<char>, bytes: Seq<u8>, want_base64: bool) -> (
    int,
    Option<Seq<char>>,
    Seq<u8>,
) {
    if want_base64 {
        (200, Some("text/plain"@), encode_utf8(data_uri_chars(mime, bytes)))
    } else {
        (200, Some(mime), bytes)
    }
}

/// The response of a validated request: generate the symbol (an unencodable
/// payload is a client error on both branches), render it as vector markup
/// or as a pixel buffer, encode the raster branch, and assemble the body.
pub open spec fn rendered_response(
    payload: Seq<char>,
    size: nat,
    format: ImageFormatKind,
    want_base64: bool,
) -> (int, Option<Seq<char>>, Seq<u8>) {
    match qr_symbol_of(payload) {
        None => error_response(QrError::InvalidPayload),
        Some(rows) => if format is Svg {
            assembled(
                mime_of_spec(ImageFormatKind::Svg),
                encode_utf8(svg_render_of(payload, size as int)),
                want_base64,
            )
        } else {
            let dim = raster_dim(rows.len(), size) as int;
            match encoding_of(format, raster_pixels(rows, size), dim, dim) {
                None => error_response(QrError::EncodeFailure),
                Some(bytes) => assembled(mime_of_spec(format), bytes, want_base64),
            }
        },
    }
}

/// The response of a set of raw request inputs: the first validation error,
/// or the rendered image.
pub open spec fn qr_response(
    filename: Seq<char>,
    data: Option<Seq<char>>,
    size: Option<Seq<char>>,
    format: Option<Seq<char>>,
    b64: Option<Seq<char>>,
) -> (int, Option<Seq<char>>, Seq<u8>) {
    match request_choice(filename, data, size, format, b64) {
        Err(e) => error_response(e),
        Ok(t) => rendered_response(t.0, t.1, t.2, t.3),
    }
}

/// The response reporting an error: a short plain-text diagnostic.
pub fn response_for_error(e: QrError) -> (r: RenderResponse)
    ensures
        r.corresponds(error_response(e)),
{
    match e {
        QrError::MissingPayload => RenderResponse {
            status: 400,
            content_type: None,
            body: "Missing data".as_bytes_vec(),
        },
        QrError::InvalidSize => RenderResponse {
            status: 400,
            content_type: None,
            body: "Invalid size".as_bytes_vec(),
        },
        QrError::InvalidPayload => RenderResponse {
            status: 400,
            content_type: None,
            body: "Invalid data".as_bytes_vec(),
        },
        QrError::EncodeFailure => RenderResponse {
            status: 500,
            content_type: None,
            body: "Encoding failed".as_bytes_vec(),
        },
    }
}

/// Assemble a successful body: a plain-text data URI when the base64 flag
/// is set, the raw bytes under the format's canonical media type otherwise.
pub fn assemble(body: Vec<u8>, format: ImageFormatKind, want_base64: bool) -> (r: RenderResponse)
    ensures
        r.corresponds(assembled(mime_of_spec(format), body@, want_base64)),
{
    if want_base64 {
        let uri = to_base64(&body, format);
        RenderResponse {
            status: 200,
            content_type: Some(String::from_str("text/plain")),
            body: uri.as_str().as_bytes_vec(),
        }
    } else {
        RenderResponse { status: 200, content_type: Some(mime_of(format).to_owned()), body }
    }
}

/// The vector branch on its own: a well-formed vector document honoring the
/// minimum dimension, or `400 Bad Request` with the body `Invalid data`
/// when the payload cannot be encoded.
pub fn get_svg(data: &str, size: u32) -> (r: RenderResponse)
    ensures
        r.corresponds(
            match qr_symbol_of(data@) {
                None => error_response(QrError::InvalidPayload),
                Some(_) => (
                    200,
                    Some(mime_of_spec(ImageFormatKind::Svg)),
                    encode_utf8(svg_render_of(data@, size as int)),
                ),
            },
        ),
{
    match svg_render(data, size) {
        None => response_for_error(QrError::InvalidPayload),
        Some(markup) => RenderResponse {
            status: 200,
            content_type: Some(mime_of(ImageFormatKind::Svg).to_owned()),
            body: markup.as_str().as_bytes_vec(),
        },
    }
}

/// Run a validated request through the pipeline: symbol generation,
/// rendering, encoding (raster branch only) and assembly.
pub fn handle_request(req: &RenderRequest) -> (r: RenderResponse)
    requires
        req.wf(),
    ensures
        r.corresponds(
            rendered_response(req.payload@, req.target_size as nat, req.format, req.want_base64),
        ),
{
    match req.format {
        ImageFormatKind::Svg => {
            match svg_render(req.payload.as_str(), req.target_size) {
                None => response_for_error(QrError::InvalidPayload),
                Some(markup) => assemble(
                    markup.as_str().as_bytes_vec(),
                    ImageFormatKind::Svg,
                    req.want_base64,
                ),
            }
        },
        _ => {
            match qr_generate(req.payload.as_str()) {
                None => response_for_error(QrError::InvalidPayload),
                Some(matrix) => {
                    let image = render_raster(&matrix, req.target_size);
                    match encode_image(&image, req.format) {
                        Err(e) => response_for_error(e),
                        Ok(bytes) => assemble(bytes, req.format, req.want_base64),
                    }
                },
            }
        },
    }
}

/// The whole pipeline: resolve the raw request inputs, and render, encode
/// and assemble the image they describe.
pub fn get_qr(
    filename: &str,
    data: Option<&str>,
    size: Option<&str>,
    format: Option<&str>,
    base64: Option<&str>,
) -> (r: RenderResponse)
    ensures
        r.corresponds(
            qr_response(
                filename@,
                opt_str_view(data),
                opt_str_view(size),
                opt_str_view(format),
                opt_str_view(base64),
            ),
        ),
{
    match resolve_request(filename, data, size, format, base64) {
        Err(e) => response_for_error(e),
        Ok(req) => handle_request(&req),
    }
}

} // verus!
