use crate::errors::TextError;
use base64::Engine as _;
use vstd::prelude::*;

verus! {

/// The two text encodings offered by the base64 codec: classic base64 with
/// padding, and the URL-safe unpadded alphabet used for signature tags.
#[derive(Clone, Copy, Debug, PartialEq, Eq, Structural)]
pub enum Base64Format {
    Standard,
    UrlSafe,
}

/// The URL-safe, unpadded base64 text of a byte sequence.
pub uninterp spec fn b64url_of(b: Seq<u8>) -> Seq<char>;

/// The bytes that a URL-safe, unpadded base64 text decodes to, or `None`
/// where the text is not a canonical encoding of any bytes.
pub uninterp spec fn b64url_decoded(s: Seq<char>) -> Option<Seq<u8>>;

/// The standard padded base64 text of a byte sequence.
pub uninterp spec fn b64std_of(b: Seq<u8>) -> Seq<char>;

/// The bytes that a standard padded base64 text decodes to, or `None`
/// where the text is not a canonical encoding of any bytes.
pub uninterp spec fn b64std_decoded(s: Seq<char>) -> Option<Seq<u8>>;

/// The input without its leading and trailing whitespace.
pub uninterp spec fn trim_of(s: Seq<char>) -> Seq<char>;

/// Relies on base64's `URL_SAFE_NO_PAD` engine: `encode` returns the
/// URL-safe unpadded base64 text of the bytes, and `decode` of that text
/// returns the bytes again (the engine rejects non-canonical input, so the
/// encoding round-trips). Base64 text holds no whitespace, so trimming
/// leaves it unchanged.
#[verifier::external_body]
pub(crate) fn b64url_encode(b: &[u8]) -> (r: String)
    ensures
        r@ == b64url_of(b@),
        b64url_decoded(r@) == Some(b@),
        trim_of(r@) == r@,
{
    base64::engine::general_purpose::URL_SAFE_NO_PAD.encode(b)
}

/// Relies on base64's `URL_SAFE_NO_PAD` engine `decode`: the result is a
/// function of the text alone, `Some` exactly on canonical encodings.
#[verifier::external_body]
pub(crate) fn b64url_decode(s: &str) -> (r: Option<Vec<u8>>)
    ensures
        match r {
            Some(v) => b64url_decoded(s@) == Some(v@),
            None => b64url_decoded(s@) is None,
        },
{
    base64::engine::general_purpose::URL_SAFE_NO_PAD.decode(s).ok()
}

/// Relies on base64's `STANDARD` engine: `encode` returns the padded base64
/// text of the bytes, and `decode` of that text returns the bytes again.
/// Base64 text holds no whitespace, so trimming leaves it unchanged.
#[verifier::external_body]
pub(crate) fn b64std_encode(b: &[u8]) -> (r: String)
    ensures
        r@ == b64std_of(b@),
        b64std_decoded(r@) == Some(b@),
        trim_of(r@) == r@,
{
    base64::engine::general_purpose::STANDARD.encode(b)
}

/// Relies on base64's `STANDARD` engine `decode`: the result is a function
/// of the text alone, `Some` exactly on canonical encodings.
#[verifier::external_body]
pub(crate) fn b64std_decode(s: &str) -> (r: Option<Vec<u8>>)
    ensures
        match r {
            Some(v) => b64std_decoded(s@) == Some(v@),
            None => b64std_decoded(s@) is None,
        },
{
    base64::engine::general_purpose::STANDARD.decode(s).ok()
}

/// Relies on `str::trim`: the input without leading and trailing whitespace,
/// a function of the characters alone.
#[verifier::external_body]
fn trim_str(s: &str) -> (r: &str)
    ensures
        r@ == trim_of(s@),
{
    s.trim()
}

/// The base64 text of `b` under the chosen encoding.
pub open spec fn b64_of_spec(format: Base64Format, b: Seq<u8>) -> Seq<char> {
    match format {
        Base64Format::Standard => b64std_of(b),
        Base64Format::UrlSafe => b64url_of(b),
    }
}

/// The bytes that `s` decodes to under the chosen encoding, if any.
pub open spec fn b64_decoded_spec(format: Base64Format, s: Seq<char>) -> Option<Seq<u8>> {
    match format {
        Base64Format::Standard => b64std_decoded(s),
        Base64Format::UrlSafe => b64url_decoded(s),
    }
}

/// Renders bytes as base64 text in the chosen encoding.
///
/// The result holds no surrounding whitespace and always decodes back to
/// the input bytes, so encoding round-trips through [`process_decode`].
pub fn process_encode(input: &[u8], format: Base64Format) -> (r: String)
    ensures
        r@ == b64_of_spec(format, input@),
        b64_decoded_spec(format, r@) == Some(input@),
        trim_of(r@) == r@,
{
    match format {
        Base64Format::Standard => b64std_encode(input),
        Base64Format::UrlSafe => b64url_encode(input),
    }
}

/// Decodes base64 text, after discarding surrounding whitespace, in the
/// chosen encoding; malformed text is reported as `TagEncodingError`.
pub fn process_decode(input: &str, format: Base64Format) -> (r: Result<Vec<u8>, TextError>)
    ensures
        match b64_decoded_spec(format, trim_of(input@)) {
            Some(v) => r matches Ok(w) && w@ == v,
            None => r == Err::<Vec<u8>, TextError>(TextError::TagEncodingError),
        },
{
    let trimmed = trim_str(input);
    let decoded = match format {
        Base64Format::Standard => b64std_decode(trimmed),
        Base64Format::UrlSafe => b64url_decode(trimmed),
    };
    match decoded {
        Some(v) => Ok(v),
        None => Err(TextError::TagEncodingError),
    }
}

} // verus!
