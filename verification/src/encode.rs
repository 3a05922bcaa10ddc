//! Format encoding: serializing a rendered pixel buffer into a container
//! byte format, each with its canonical media type.

use vstd::prelude::*;

use crate::params::{ImageFormatKind, QrError};
use crate::raster::PixelBuffer;

verus! {

/// What the PNG encoder produces for a grayscale buffer of the given
/// dimensions, or `None` on an encoder-level failure.
pub uninterp spec fn png_encoding_of(pixels: Seq<u8>, w: int, h: int) -> Option<Seq<u8>>;

/// What the JPEG encoder produces for a grayscale buffer of the given
/// dimensions, or `None` on an encoder-level failure.
pub uninterp spec fn jpeg_encoding_of(pixels: Seq<u8>, w: int, h: int) -> Option<Seq<u8>>;

/// What the BMP encoder produces for a grayscale buffer of the given
/// dimensions, or `None` on an encoder-level failure.
pub uninterp spec fn bmp_encoding_of(pixels: Seq<u8>, w: int, h: int) -> Option<Seq<u8>>;

/// Relies on `image::codecs::png::PngEncoder::write_image` with 8-bit
/// grayscale samples, writing into an in-memory buffer: the bytes are a
/// function of the samples and dimensions alone. The encoder asserts that
/// the buffer length matches the dimensions, hence the requirement.
#[verifier::external_body]
fn png_encode(pixels: &Vec<u8>, w: u32, h: u32) -> (r: Option<Vec<u8>>)
    requires
        pixels@.len() == w * h,
        1 <= w,
        1 <= h,
    ensures
        r is Some <==> png_encoding_of(pixels@, w as int, h as int) is Some,
        r matches Some(b) ==> b@ == png_encoding_of(pixels@, w as int, h as int).unwrap(),
{
    let mut out: Vec<u8> = Vec::new();
    let enc = image::codecs::png::PngEncoder::new(&mut out);
    match image::ImageEncoder::write_image(enc, pixels, w, h, image::ExtendedColorType::L8) {
        Ok(()) => Some(out),
        Err(_) => None,
    }
}

/// Relies on `image::codecs::jpeg::JpegEncoder::encode` with 8-bit
/// grayscale samples, writing into an in-memory buffer: the bytes are a
/// function of the samples and dimensions alone. The encoder asserts that
/// the buffer length matches the dimensions, hence the requirement.
#[verifier::external_body]
fn jpeg_encode(pixels: &Vec<u8>, w: u32, h: u32) -> (r: Option<Vec<u8>>)
    requires
        pixels@.len() == w * h,
        1 <= w,
        1 <= h,
    ensures
        r is Some <==> jpeg_encoding_of(pixels@, w as int, h as int) is Some,
        r matches Some(b) ==> b@ == jpeg_encoding_of(pixels@, w as int, h as int).unwrap(),
{
    let mut out: Vec<u8> = Vec::new();
    let mut enc = image::codecs::jpeg::JpegEncoder::new(&mut out);
    match enc.encode(pixels, w, h, image::ExtendedColorType::L8) {
        Ok(()) => Some(out),
        Err(_) => None,
    }
}

/// Relies on `image::codecs::bmp::BmpEncoder::encode` with 8-bit grayscale
/// samples, writing into an in-memory buffer: the bytes are a function of
/// the samples and dimensions alone. The encoder panics when the buffer
/// length does not match the dimensions, hence the requirement.
#[verifier::external_body]
fn bmp_encode(pixels: &Vec<u8>, w: u32, h: u32) -> (r: Option<Vec<u8>>)
    requires
        pixels@.len() == w * h,
        1 <= w,
        1 <= h,
    ensures
        r is Some <==> bmp_encoding_of(pixels@, w as int, h as int) is Some,
        r matches Some(b) ==> b@ == bmp_encoding_of(pixels@, w as int, h as int).unwrap(),
{
    let mut out: Vec<u8> = Vec::new();
    let mut enc = image::codecs::bmp::BmpEncoder::new(&mut out);
    match enc.encode(pixels, w, h, image::ExtendedColorType::L8) {
        Ok(()) => Some(out),
        Err(_) => None,
    }
}

/// The canonical media type of each format.
pub open spec fn mime_of_spec(f: ImageFormatKind) -> Seq<char> {
    match f {
        ImageFormatKind::Png => "image/png"@,
        ImageFormatKind::Jpeg => "image/jpeg"@,
        ImageFormatKind::Gif => "image/gif"@,
        ImageFormatKind::Bmp => "image/bmp"@,
        ImageFormatKind::Ico => "image/x-icon"@,
        ImageFormatKind::Tiff => "image/tiff"@,
        ImageFormatKind::WebP => "image/webp"@,
        ImageFormatKind::Svg => "image/svg+xml"@,
    }
}

/// The canonical media type of a format.
pub fn mime_of(f: ImageFormatKind) -> (r: &'static str)
    ensures
        r@ == mime_of_spec(f),
{
    match f {
        ImageFormatKind::Png => "image/png",
        ImageFormatKind::Jpeg => "image/jpeg",
        ImageFormatKind::Gif => "image/gif",
        ImageFormatKind::Bmp => "image/bmp",
        ImageFormatKind::Ico => "image/x-icon",
        ImageFormatKind::Tiff => "image/tiff",
        ImageFormatKind::WebP => "image/webp",
        ImageFormatKind::Svg => "image/svg+xml",
    }
}

/// The dispatch table: JPEG and BMP have encoders of their own; every other
/// raster token falls through to the lossless PNG encoder.
pub open spec fn encoding_of(f: ImageFormatKind, pixels: Seq<u8>, w: int, h: int) -> Option<
    Seq<u8>,
> {
    match f {
        ImageFormatKind::Jpeg => jpeg_encoding_of(pixels, w, h),
        ImageFormatKind::Bmp => bmp_encoding_of(pixels, w, h),
        _ => png_encoding_of(pixels, w, h),
    }
}

/// Serialize a rendered pixel buffer into the container format's bytes.
/// Formats that are recognized but have no encoder of their own fall
/// through to the PNG encoder. An encoder-level failure is a server fault,
/// never a client error: by this stage all inputs have been validated.
pub fn encode_image(image: &PixelBuffer, format: ImageFormatKind) -> (r: Result<Vec<u8>, QrError>)
    requires
        image.wf(),
    ensures
        match encoding_of(format, image.pixels@, image.width as int, image.height as int) {
            Some(b) => r matches Ok(v) && v@ == b,
            None => r == Err::<Vec<u8>, QrError>(QrError::EncodeFailure),
        },
{
    let res = match format {
        ImageFormatKind::Jpeg => jpeg_encode(&image.pixels, image.width, image.height),
        ImageFormatKind::Bmp => bmp_encode(&image.pixels, image.width, image.height),
        _ => png_encode(&image.pixels, image.width, image.height),
    };
    match res {
        Some(v) => Ok(v),
        None => Err(QrError::EncodeFailure),
    }
}

} // verus!
