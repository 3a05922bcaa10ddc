//! The library's general guarantees, stated and proved once.

use vstd::prelude::*;
use vstd::utf8::encode_utf8;

use crate::data_uri::data_uri_chars;
use crate::params::{
    bool_token_value, chosen_format, digits_val, ends_with, ends_with_lowered, lower_ascii,
    size_choice, valid_size_text, ImageFormatKind,
};
use crate::response::{assembled, qr_response};

verus! {

/// A missing size parameter and an empty one resolve alike, to the default
/// size, and so produce the same response for the same payload and format.
pub proof fn lemma_empty_size_is_default(
    filename: Seq<char>,
    data: Option<Seq<char>>,
    size: Option<Seq<char>>,
    format: Option<Seq<char>>,
    b64: Option<Seq<char>>,
)
    requires
        size matches Some(t) && t.len() == 0,
    ensures
        size_choice(size) == size_choice(None::<Seq<char>>),
        qr_response(filename, data, size, format, b64) == qr_response(
            filename,
            data,
            None::<Seq<char>>,
            format,
            b64,
        ),
{
}

/// A requested size above the cap is used as exactly the cap.
pub proof fn lemma_oversize_clamped(t: Seq<char>)
    requires
        valid_size_text(t),
        digits_val(t) > 4096,
    ensures
        size_choice(Some(t)) == Some(4096 as nat),
{
}

/// A requested size within `[1, 4096]` is used unchanged.
pub proof fn lemma_size_in_range(t: Seq<char>)
    requires
        valid_size_text(t),
        1 <= digits_val(t) <= 4096,
    ensures
        size_choice(Some(t)) == Some(digits_val(t)),
{
}

/// The base64 flag is true for exactly the tokens `on` and `true` and the
/// present-but-empty value; absence and every other token leave it false.
pub proof fn lemma_base64_flag(b: Option<Seq<char>>)
    ensures
        bool_token_value(b) <==> (b matches Some(t) && (t == "on"@ || t == "true"@ || t.len()
            == 0)),
{
}

/// The base64 flag alone decides the body's shape: set, the body is a
/// plain-text data URI; clear, it is the raw bytes under the format's own
/// media type. Both are served with status 200.
pub proof fn lemma_base64_wrapping(mime: Seq<char>, bytes: Seq<u8>)
    ensures
        assembled(mime, bytes, true) == (
            200int,
            Some("text/plain"@),
            encode_utf8(data_uri_chars(mime, bytes)),
        ),
        assembled(mime, bytes, false) == (200int, Some(mime), bytes),
{
}

/// An explicit `format=svg` parameter selects the vector output whatever
/// extension the route token carries.
pub proof fn lemma_format_param_wins(filename: Seq<char>)
    ensures
        chosen_format(Some("svg"@), filename) == ImageFormatKind::Svg,
{
}

/// With no format parameter, a route token ending in `.jpg` selects JPEG.
pub proof fn lemma_jpg_extension_selects_jpeg(filename: Seq<char>)
    requires
        ends_with(filename, ".jpg"@),
    ensures
        chosen_format(None::<Seq<char>>, filename) == ImageFormatKind::Jpeg,
{
    reveal_strlit(".jpg");
    reveal_strlit(".svg");
    reveal_strlit(".png");
    let n = filename.len() as int;
    assert(filename.subrange(n - 4, n) == ".jpg"@);
    assert(filename[n - 3] == ".jpg"@[1]);
    if ends_with(filename, ".svg"@) {
        assert(filename[n - 3] == ".svg"@[1]);
        assert(false);
    }
    if ends_with_lowered(filename, ".png"@) {
        let mapped = filename.subrange(n - 4, n).map_values(|c: char| lower_ascii(c));
        assert(mapped[1] == lower_ascii(filename.subrange(n - 4, n)[1]));
        assert(false);
    }
}

} // verus!
