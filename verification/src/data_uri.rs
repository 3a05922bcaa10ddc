//! Wrapping an encoded body as a base64 data URI.

use vstd::prelude::*;

use crate::encode::{mime_of, mime_of_spec};
use crate::params::ImageFormatKind;

verus! {

/// What the base64 encoder produces for the given bytes: the standard
/// alphabet, unpadded.
pub uninterp spec fn b64_of(bytes: Seq<u8>) -> Seq<char>;

/// Relies on `base64::engine::general_purpose::STANDARD_NO_PAD` (standard
/// alphabet, no padding): the encoding is a function of the input bytes
/// alone, and an empty input encodes to the empty string.
#[verifier::external_body]
fn base64_encode(bytes: &Vec<u8>) -> (r: String)
    ensures
        r@ == b64_of(bytes@),
        bytes@.len() == 0 ==> r@.len() == 0,
{
    base64::Engine::encode(&base64::engine::general_purpose::STANDARD_NO_PAD, bytes)
}

/// A body wrapped as a data URI: `data:<media type>;base64,<payload>`.
pub open spec fn data_uri_chars(mime: Seq<char>, bytes: Seq<u8>) -> Seq<char> {
    "data:"@ + mime + ";base64,"@ + b64_of(bytes)
}

/// Wrap an encoded body as a data URI carrying the format's canonical media
/// type, with an unpadded standard-alphabet base64 payload.
pub fn to_base64(buffer: &Vec<u8>, image_format: ImageFormatKind) -> (r: String)
    ensures
        r@ == data_uri_chars(mime_of_spec(image_format), buffer@),
{
    let mut s = String::from_str("data:");
    s.append(mime_of(image_format));
    s.append(";base64,");
    let b = base64_encode(buffer);
    s.append(b.as_str());
    proof {
        assert(s@ =~= data_uri_chars(mime_of_spec(image_format), buffer@));
    }
    s
}

} // verus!
