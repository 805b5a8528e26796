//! Base64 text encodings, as the `base64` crate computes them.

use base64::Engine;
use vstd::prelude::*;

verus! {

/// What `URL_SAFE_NO_PAD.encode` returns for `data`.
pub uninterp spec fn b64url_encoded(data: Seq<u8>) -> Seq<char>;

/// What `URL_SAFE_NO_PAD.decode` returns for `text`: the bytes, or nothing
/// where the text is no unpadded URL-safe base64.
pub uninterp spec fn b64url_decoded(text: Seq<char>) -> Option<Seq<u8>>;

/// What `STANDARD.encode` returns for `data`.
pub uninterp spec fn b64_encoded(data: Seq<u8>) -> Seq<char>;

/// What `STANDARD.decode` returns for `text`: the bytes, or nothing where
/// the text is no padded standard base64.
pub uninterp spec fn b64_decoded(text: Seq<char>) -> Option<Seq<u8>>;

/// The length of the unpadded base64 text of `n` bytes: four characters
/// for every three bytes, and two or three for one or two bytes left.
pub open spec fn b64_unpadded_len(n: nat) -> nat {
    (4 * n + 2) / 3
}

/// The length of the padded base64 text of `n` bytes: four characters
/// for every three bytes, begun or whole.
pub open spec fn b64_padded_len(n: nat) -> nat {
    4 * ((n + 2) / 3)
}

/// Whether `c` belongs to the URL-safe base64 alphabet.
pub open spec fn is_b64url_char(c: char) -> bool {
    ('A' <= c && c <= 'Z') || ('a' <= c && c <= 'z') || ('0' <= c && c <= '9') || c == '-' || c
        == '_'
}

/// `URL_SAFE_NO_PAD.encode`: the unpadded URL-safe base64 text of `data`.
///
/// The text has the length that the crate's `encoded_len` gives, holds
/// only characters of the URL-safe alphabet, and decodes to `data`
/// again.
/// The crate stops where the encoded length does not fit in `usize`; no
/// slice is that long, since none is longer than `isize::MAX` bytes.
#[verifier::external_body]
pub(crate) fn encode_b64url(data: &[u8]) -> (text: String)
    ensures
        text@ == b64url_encoded(data@),
        text@.len() == b64_unpadded_len(data@.len()),
        forall|i: int| 0 <= i < text@.len() ==> is_b64url_char(#[trigger] text@[i]),
        b64url_decoded(text@) == Some(data@),
{
    base64::engine::general_purpose::URL_SAFE_NO_PAD.encode(data)
}

/// `URL_SAFE_NO_PAD.decode`: the bytes that `text` encodes, or nothing
/// where the crate reports a decode error.
#[verifier::external_body]
pub(crate) fn decode_b64url(text: &str) -> (data: Option<Vec<u8>>)
    ensures
        data is Some <==> b64url_decoded(text@) is Some,
        data matches Some(d) ==> b64url_decoded(text@) == Some(d@),
{
    base64::engine::general_purpose::URL_SAFE_NO_PAD.decode(text).ok()
}

/// `STANDARD.encode`: the padded standard base64 text of `data`, which
/// has the length that the crate's `encoded_len` gives and decodes to
/// `data` again. As for the URL-safe encoding, no slice is too
/// long for it.
#[verifier::external_body]
pub(crate) fn encode_b64(data: &[u8]) -> (text: String)
    ensures
        text@ == b64_encoded(data@),
        text@.len() == b64_padded_len(data@.len()),
        b64_decoded(text@) == Some(data@),
{
    base64::engine::general_purpose::STANDARD.encode(data)
}

/// `STANDARD.decode`: the bytes that `text` encodes, or nothing where the
/// crate reports a decode error.
#[verifier::external_body]
pub(crate) fn decode_b64(text: &str) -> (data: Option<Vec<u8>>)
    ensures
        data is Some <==> b64_decoded(text@) is Some,
        data matches Some(d) ==> b64_decoded(text@) == Some(d@),
{
    base64::engine::general_purpose::STANDARD.decode(text).ok()
}

/// Whether the byte `b` is left as it is in a percent-encoding: a
/// letter, a digit, or one of `-`, `.`, `_`, `~`.
pub open spec fn is_unreserved(b: u8) -> bool {
    (0x30 <= b && b <= 0x39) || (0x41 <= b && b <= 0x5a) || (0x61 <= b && b <= 0x7a) || b == 0x2d
        || b == 0x2e || b == 0x5f || b == 0x7e
}

/// The capital hexadecimal digit of `d`, a number below 16.
pub open spec fn hex_digit(d: u8) -> char {
    if d < 10 {
        ((48 + d) as u8) as char
    } else {
        ((55 + d) as u8) as char
    }
}

/// The percent-encoding of one byte.
pub open spec fn percent_encoded_byte(b: u8) -> Seq<char> {
    if is_unreserved(b) {
        seq![b as char]
    } else {
        seq!['%', hex_digit(b / 16), hex_digit(b % 16)]
    }
}

/// The percent-encoding of `bytes`: every byte that is not unreserved
/// becomes `%` and its two capital hexadecimal digits.
pub open spec fn percent_encoded(bytes: Seq<u8>) -> Seq<char>
    decreases bytes.len(),
{
    if bytes.len() == 0 {
        Seq::empty()
    } else {
        percent_encoded(bytes.drop_last()) + percent_encoded_byte(bytes.last())
    }
}

/// `urlencoding::encode`: the percent-encoding of the UTF-8 bytes of
/// `text`.
#[verifier::external_body]
pub(crate) fn url_encode(text: &str) -> (r: String)
    ensures
        r@ == percent_encoded(vstd::utf8::encode_utf8(text@)),
{
    urlencoding::encode(text).into_owned()
}

} // verus!
