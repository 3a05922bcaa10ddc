//! Parameter resolution: raw request inputs (route token and query-string
//! values) into a validated, typed request descriptor.

use vstd::prelude::*;

verus! {

/// Error taxonomy of the rendering pipeline.
#[derive(Clone, Copy, PartialEq, Eq, Structural, Debug)]
pub enum QrError {
    /// The required text payload is absent. Client error.
    MissingPayload,
    /// The size parameter is present but not a decimal number that fits the
    /// size type. Client error.
    InvalidSize,
    /// The payload exceeds the encodable capacity of the symbol format.
    /// Client error.
    InvalidPayload,
    /// An internal failure converting pixels to a container format after all
    /// validation has passed. Server error.
    EncodeFailure,
}

/// The output container formats recognized as filename or format tokens.
/// Only PNG, JPEG, BMP and SVG have encoders of their own; a recognized
/// token among the others falls back to the PNG encoder while keeping its
/// own media type.
#[derive(Clone, Copy, PartialEq, Eq, Structural, Debug)]
pub enum ImageFormatKind {
    Png,
    Jpeg,
    Gif,
    Bmp,
    Ico,
    Tiff,
    WebP,
    Svg,
}

/// The view of an optional string parameter: the sequence of characters it
/// carries, or `None` where the parameter is absent.
pub open spec fn opt_str_view(s: Option<&str>) -> Option<Seq<char>> {
    match s {
        Some(t) => Some(t@),
        None => None,
    }
}

/// The boolean a string-encoded flag resolves to: `"on"`, `"true"` and the
/// empty string (the parameter present with no value) are true; `"off"`,
/// `"false"`, any other token, and complete absence of the parameter are
/// false.
pub open spec fn bool_token_value(s: Option<Seq<char>>) -> bool {
    match s {
        Some(t) => t == "on"@ || t == "true"@ || t.len() == 0,
        None => false,
    }
}

pub open spec fn is_digit(c: char) -> bool {
    48 <= c as u32 <= 57
}

pub open spec fn digit_val(c: char) -> nat {
    if is_digit(c) {
        (c as u32 - 48) as nat
    } else {
        0
    }
}

pub open spec fn all_digits(s: Seq<char>) -> bool {
    forall|i: int| 0 <= i < s.len() ==> is_digit(s[i])
}

/// The value of a decimal digit string, most significant digit first.
pub open spec fn digits_val(s: Seq<char>) -> nat
    decreases s.len(),
{
    if s.len() == 0 {
        0
    } else {
        digits_val(s.drop_last()) * 10 + digit_val(s.last())
    }
}

/// A size parameter value is valid when it is a non-empty string of decimal
/// digits whose value fits in the size type.
pub open spec fn valid_size_text(s: Seq<char>) -> bool {
    s.len() > 0 && all_digits(s) && digits_val(s) <= u32::MAX
}

/// The effective size: clamped to at least 1 and at most 4096 pixels.
pub open spec fn clamp_size(v: nat) -> nat {
    if v < 1 {
        1
    } else if v > 4096 {
        4096
    } else {
        v
    }
}

/// The size a raw size parameter resolves to: absence and the empty string
/// both mean the default of 1024; a valid digit string is clamped to
/// `[1, 4096]`; anything else is invalid (`None`).
pub open spec fn size_choice(size: Option<Seq<char>>) -> Option<nat> {
    match size {
        None => Some(1024 as nat),
        Some(t) => if t.len() == 0 {
            Some(1024 as nat)
        } else if valid_size_text(t) {
            Some(clamp_size(digits_val(t)))
        } else {
            None
        },
    }
}

/// Taking a prefix of a digit string never increases its value.
proof fn lemma_digits_val_prefix(s: Seq<char>, k: int)
    requires
        0 <= k <= s.len(),
    ensures
        digits_val(s.subrange(0, k)) <= digits_val(s),
    decreases s.len(),
{
    if k < s.len() {
        assert(s.subrange(0, k) =~= s.drop_last().subrange(0, k));
        lemma_digits_val_prefix(s.drop_last(), k);
    } else {
        assert(s.subrange(0, k) =~= s);
    }
}

/// Character-by-character string equality.
fn str_eq(a: &str, b: &str) -> (r: bool)
    ensures
        r == (a@ == b@),
{
    let n = a.unicode_len();
    let m = b.unicode_len();
    if n != m {
        return false;
    }
    let mut i: usize = 0;
    while i < n
        invariant
            n == a@.len(),
            n == b@.len(),
            i <= n,
            forall|j: int| 0 <= j < i ==> a@[j] == b@[j],
        decreases n - i,
    {
        if a.get_char(i) != b.get_char(i) {
            return false;
        }
        i += 1;
    }
    proof {
        assert(a@ =~= b@);
    }
    true
}

/// Whether `s` ends with `suffix`, character for character.
pub open spec fn ends_with(s: Seq<char>, suffix: Seq<char>) -> bool {
    suffix.len() <= s.len() && s.subrange(s.len() - suffix.len(), s.len() as int) == suffix
}

fn str_ends_with(s: &str, suffix: &str) -> (r: bool)
    ensures
        r == ends_with(s@, suffix@),
{
    let n = s.unicode_len();
    let m = suffix.unicode_len();
    if m > n {
        return false;
    }
    let mut i: usize = 0;
    while i < m
        invariant
            n == s@.len(),
            m == suffix@.len(),
            m <= n,
            i <= m,
            forall|j: int| 0 <= j < i ==> s@[n - m + j] == suffix@[j],
        decreases m - i,
    {
        if s.get_char(n - m + i) != suffix.get_char(i) {
            proof {
                assert(s@.subrange(n - m, n as int)[i as int] == s@[n - m + i]);
            }
            return false;
        }
        i += 1;
    }
    proof {
        assert(s@.subrange(n - m, n as int) =~= suffix@);
    }
    true
}

/// ASCII lowercasing of a single character; all others are unchanged.
pub open spec fn lower_ascii(c: char) -> char {
    if 65 <= c as u32 <= 90 {
        ((c as u32 + 32) as u8) as char
    } else {
        c
    }
}

fn lower_char(c: char) -> (r: char)
    ensures
        r == lower_ascii(c),
{
    let cu = c as u32;
    if 65 <= cu && cu <= 90 {
        ((cu + 32) as u8) as char
    } else {
        c
    }
}

/// Whether `s`, once ASCII-lowercased, ends with `suffix`.
pub open spec fn ends_with_lowered(s: Seq<char>, suffix: Seq<char>) -> bool {
    suffix.len() <= s.len() && s.subrange(s.len() - suffix.len(), s.len() as int).map_values(
        |c: char| lower_ascii(c),
    ) == suffix
}

fn str_ends_with_lowered(s: &str, suffix: &str) -> (r: bool)
    ensures
        r == ends_with_lowered(s@, suffix@),
{
    let n = s.unicode_len();
    let m = suffix.unicode_len();
    if m > n {
        return false;
    }
    let ghost mapped = s@.subrange(n - m, n as int).map_values(|c: char| lower_ascii(c));
    let mut i: usize = 0;
    while i < m
        invariant
            n == s@.len(),
            m == suffix@.len(),
            m <= n,
            i <= m,
            mapped == s@.subrange(n - m, n as int).map_values(|c: char| lower_ascii(c)),
            mapped.len() == m,
            forall|j: int| 0 <= j < i ==> mapped[j] == suffix@[j],
        decreases m - i,
    {
        let c = lower_char(s.get_char(n - m + i));
        proof {
            assert(mapped[i as int] == lower_ascii(s@.subrange(n - m, n as int)[i as int]));
            assert(s@.subrange(n - m, n as int)[i as int] == s@[n - m + i]);
        }
        if c != suffix.get_char(i) {
            return false;
        }
        i += 1;
    }
    proof {
        assert(mapped =~= suffix@);
    }
    true
}

/// Resolve a string-encoded boolean flag, preserving the asymmetry that a
/// present-but-empty value means true while an absent parameter means false.
pub fn string_as_bool(s: Option<&str>) -> (r: bool)
    ensures
        r == bool_token_value(opt_str_view(s)),
{
    match s {
        None => false,
        Some(t) => {
            if t.unicode_len() == 0 {
                true
            } else if str_eq(t, "on") {
                true
            } else if str_eq(t, "true") {
                true
            } else {
                false
            }
        },
    }
}

/// Parse a non-empty string as a decimal number.
fn parse_u32(t: &str) -> (r: Option<u32>)
    requires
        t@.len() >= 1,
    ensures
        match r {
            Some(v) => all_digits(t@) && digits_val(t@) <= u32::MAX && v as nat == digits_val(t@),
            None => !(all_digits(t@) && digits_val(t@) <= u32::MAX),
        },
{
    let n = t.unicode_len();
    let mut acc: u64 = 0;
    let mut i: usize = 0;
    while i < n
        invariant
            n == t@.len(),
            i <= n,
            forall|j: int| 0 <= j < i ==> is_digit(t@[j]),
            acc as nat == digits_val(t@.subrange(0, i as int)),
            acc <= u32::MAX,
        decreases n - i,
    {
        let c = t.get_char(i);
        let cu = c as u32;
        if cu < 48 || cu > 57 {
            return None;
        }
        let d = cu - 48;
        acc = acc * 10 + d as u64;
        proof {
            let pre = t@.subrange(0, i as int);
            let cur = t@.subrange(0, i + 1);
            assert(cur.drop_last() =~= pre);
            assert(cur.last() == t@[i as int]);
        }
        if acc > 0xffff_ffff {
            proof {
                lemma_digits_val_prefix(t@, i + 1);
            }
            return None;
        }
        i += 1;
    }
    proof {
        assert(t@.subrange(0, n as int) =~= t@);
    }
    Some(acc as u32)
}

/// Resolve the raw size parameter: absence and the empty string both mean
/// "use the default"; a non-empty value must be a decimal number.
pub fn empty_string_as_none(s: Option<&str>) -> (r: Result<Option<u32>, QrError>)
    ensures
        match opt_str_view(s) {
            None => r == Ok::<Option<u32>, QrError>(None),
            Some(t) => if t.len() == 0 {
                r == Ok::<Option<u32>, QrError>(None)
            } else if valid_size_text(t) {
                r matches Ok(Some(v)) && v as nat == digits_val(t)
            } else {
                r == Err::<Option<u32>, QrError>(QrError::InvalidSize)
            },
        },
{
    match s {
        None => Ok(None),
        Some(t) => {
            if t.unicode_len() == 0 {
                Ok(None)
            } else {
                match parse_u32(t) {
                    Some(v) => Ok(Some(v)),
                    None => Err(QrError::InvalidSize),
                }
            }
        },
    }
}

/// Resolve the effective target size: the parsed value or the default of
/// 1024, clamped to `[1, 4096]`.
pub fn resolve_size(s: Option<&str>) -> (r: Result<u32, QrError>)
    ensures
        match size_choice(opt_str_view(s)) {
            Some(v) => r matches Ok(x) && x as nat == v,
            None => r == Err::<u32, QrError>(QrError::InvalidSize),
        },
{
    match empty_string_as_none(s)? {
        None => Ok(1024),
        Some(v) => {
            let lo = if v < 1 {
                1
            } else {
                v
            };
            let clamped = if lo > 4096 {
                4096
            } else {
                lo
            };
            Ok(clamped)
        },
    }
}

/// The format a filename-like token selects by its extension. The PNG check
/// is case-insensitive; the others match the suffix exactly.
pub open spec fn format_for_name(name: Seq<char>) -> Option<ImageFormatKind> {
    if ends_with_lowered(name, ".png"@) {
        Some(ImageFormatKind::Png)
    } else if ends_with(name, ".jpg"@) || ends_with(name, ".jpeg"@) {
        Some(ImageFormatKind::Jpeg)
    } else if ends_with(name, ".gif"@) {
        Some(ImageFormatKind::Gif)
    } else if ends_with(name, ".bmp"@) {
        Some(ImageFormatKind::Bmp)
    } else if ends_with(name, ".ico"@) {
        Some(ImageFormatKind::Ico)
    } else if ends_with(name, ".tiff"@) || ends_with(name, ".tif"@) {
        Some(ImageFormatKind::Tiff)
    } else if ends_with(name, ".webp"@) {
        Some(ImageFormatKind::WebP)
    } else {
        None
    }
}

/// Select a format by the extension carried in a filename-like token.
pub fn get_format_from_filename(filename: &str) -> (r: Option<ImageFormatKind>)
    ensures
        r == format_for_name(filename@),
{
    if str_ends_with_lowered(filename, ".png") {
        Some(ImageFormatKind::Png)
    } else if str_ends_with(filename, ".jpg") || str_ends_with(filename, ".jpeg") {
        Some(ImageFormatKind::Jpeg)
    } else if str_ends_with(filename, ".gif") {
        Some(ImageFormatKind::Gif)
    } else if str_ends_with(filename, ".bmp") {
        Some(ImageFormatKind::Bmp)
    } else if str_ends_with(filename, ".ico") {
        Some(ImageFormatKind::Ico)
    } else if str_ends_with(filename, ".tiff") || str_ends_with(filename, ".tif") {
        Some(ImageFormatKind::Tiff)
    } else if str_ends_with(filename, ".webp") {
        Some(ImageFormatKind::WebP)
    } else {
        None
    }
}

/// The vector output is selected exactly when the format parameter is the
/// token `svg`, or, with no format parameter, when the route token ends in
/// `.svg`.
pub open spec fn svg_selected(format: Option<Seq<char>>, filename: Seq<char>) -> bool {
    match format {
        Some(t) => t == "svg"@,
        None => ends_with(filename, ".svg"@),
    }
}

/// The format the request resolves to: an explicit format token takes
/// precedence over the filename extension; if neither yields a recognized
/// format, the default is PNG.
pub open spec fn chosen_format(format: Option<Seq<char>>, filename: Seq<char>) -> ImageFormatKind {
    if svg_selected(format, filename) {
        ImageFormatKind::Svg
    } else {
        let from_token = match format {
            Some(p) => format_for_name("."@ + p),
            None => None,
        };
        match from_token {
            Some(f) => f,
            None => match format_for_name(filename) {
                Some(f) => f,
                None => ImageFormatKind::Png,
            },
        }
    }
}

/// Resolve the target format from the optional format parameter and the
/// route token.
pub fn resolve_format(format: Option<&str>, filename: &str) -> (r: ImageFormatKind)
    ensures
        r == chosen_format(opt_str_view(format), filename@),
{
    let is_svg = match format {
        Some(p) => str_eq(p, "svg"),
        None => str_ends_with(filename, ".svg"),
    };
    if is_svg {
        return ImageFormatKind::Svg;
    }
    let from_token = match format {
        Some(p) => {
            let mut dotted = String::from_str(".");
            dotted.append(p);
            get_format_from_filename(dotted.as_str())
        },
        None => None,
    };
    match from_token {
        Some(f) => f,
        None => match get_format_from_filename(filename) {
            Some(f) => f,
            None => ImageFormatKind::Png,
        },
    }
}

/// A validated, typed request descriptor.
pub struct RenderRequest {
    /// The text to encode.
    pub payload: String,
    /// The minimum dimension of the rendered image, in pixels.
    pub target_size: u32,
    /// The resolved output format.
    pub format: ImageFormatKind,
    /// Whether to wrap the response body as a base64 data URI.
    pub want_base64: bool,
}

impl RenderRequest {
    /// The target size is always clamped to `[1, 4096]`.
    pub open spec fn wf(self) -> bool {
        1 <= self.target_size <= 4096
    }
}

/// What a set of raw request inputs resolves to: the payload characters,
/// the effective size, the chosen format and the base64 flag, or the first
/// validation error.
pub open spec fn request_choice(
    filename: Seq<char>,
    data: Option<Seq<char>>,
    size: Option<Seq<char>>,
    format: Option<Seq<char>>,
    b64: Option<Seq<char>>,
) -> Result<(Seq<char>, nat, ImageFormatKind, bool), QrError> {
    match data {
        None => Err(QrError::MissingPayload),
        Some(payload) => match size_choice(size) {
            None => Err(QrError::InvalidSize),
            Some(sz) => Ok((payload, sz, chosen_format(format, filename), bool_token_value(b64))),
        },
    }
}

/// Resolve raw request inputs into a `RenderRequest`, or fail with the
/// first validation error: a missing payload, then an unparseable size.
pub fn resolve_request(
    filename: &str,
    data: Option<&str>,
    size: Option<&str>,
    format: Option<&str>,
    base64: Option<&str>,
) -> (r: Result<RenderRequest, QrError>)
    ensures
        match request_choice(
            filename@,
            opt_str_view(data),
            opt_str_view(size),
            opt_str_view(format),
            opt_str_view(base64),
        ) {
            Ok(t) => r matches Ok(q) && q.payload@ == t.0 && q.target_size as nat == t.1
                && q.format == t.2 && q.want_base64 == t.3 && q.wf(),
            Err(e) => r matches Err(e2) && e2 == e,
        },
{
    let payload = match data {
        None => {
            return Err(QrError::MissingPayload);
        },
        Some(d) => d.to_owned(),
    };
    let target_size = resolve_size(size)?;
    let format_kind = resolve_format(format, filename);
    let want_base64 = string_as_bool(base64);
    Ok(RenderRequest { payload, target_size, format: format_kind, want_base64 })
}

} // verus!
