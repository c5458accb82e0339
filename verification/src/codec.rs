//! Digests, decompression, text decoding and time formatting done by other
//! libraries: each is named here, not restated.
use vstd::prelude::*;
use vstd::string::StringSliceAdditionalSpecFns;

verus! {

/// The MD5 digest of a byte sequence.
pub uninterp spec fn md5_of(data: Seq<u8>) -> Seq<u8>;

/// `md5::Md5::digest`: the 16-byte MD5 digest of the data.
#[verifier::external_body]
pub(crate) fn md5_digest(data: &[u8]) -> (r: Vec<u8>)
    ensures
        r@ == md5_of(data@),
        r@.len() == 16,
{
    <md5::Md5 as md5::Digest>::digest(data).to_vec()
}

/// What a zstd frame decompresses to; none when it is not a valid frame.
pub uninterp spec fn zstd_decoded(data: Seq<u8>) -> Option<Seq<u8>>;

/// `zstd::decode_all` on in-memory bytes: the decompressed bytes, or none
/// when decompression fails.
#[verifier::external_body]
pub(crate) fn zstd_decode(data: &[u8]) -> (r: Option<Vec<u8>>)
    ensures
        match r {
            Some(v) => zstd_decoded(data@) == Some(v@),
            None => zstd_decoded(data@) is None,
        },
{
    match zstd::decode_all(data) {
        Ok(v) => Some(v),
        Err(_) => None,
    }
}

/// The text `String::from_utf8_lossy` makes of bytes.
pub uninterp spec fn utf8_lossy(bytes: Seq<u8>) -> Seq<char>;

/// `String::from_utf8_lossy`: the bytes as text, every invalid sequence
/// replaced by U+FFFD; valid UTF-8 decodes unchanged.
#[verifier::external_body]
pub(crate) fn from_utf8_lossy(bytes: &[u8]) -> (r: String)
    ensures
        r@ == utf8_lossy(bytes@),
        vstd::utf8::valid_utf8(bytes@) ==> r@ == vstd::utf8::decode_utf8(bytes@),
{
    String::from_utf8_lossy(bytes).into_owned()
}

/// The RFC 3339 text of a Unix timestamp in UTC; none when chrono cannot
/// represent it.
pub uninterp spec fn rfc3339_of(t: int) -> Option<Seq<char>>;

/// `chrono::DateTime::from_timestamp(t, 0)` then `to_rfc3339`.
#[verifier::external_body]
pub(crate) fn timestamp_rfc3339(t: i64) -> (r: Option<String>)
    ensures
        match r {
            Some(s) => rfc3339_of(t as int) == Some(s@),
            None => rfc3339_of(t as int) is None,
        },
{
    match chrono::DateTime::from_timestamp(t, 0) {
        Some(dt) => Some(dt.to_rfc3339()),
        None => None,
    }
}

/// The SHA-256 digest of a byte sequence.
pub uninterp spec fn sha256_of(data: Seq<u8>) -> Seq<u8>;

/// `sha2::Sha256::digest`: the 32-byte SHA-256 digest of the data.
#[verifier::external_body]
pub(crate) fn sha256_digest(data: &[u8]) -> (r: Vec<u8>)
    ensures
        r@ == sha256_of(data@),
        r@.len() == 32,
{
    <sha2::Sha256 as sha2::Digest>::digest(data).to_vec()
}

/// A hex digit in either letter case.
pub open spec fn uuid_hex(c: u8) -> bool {
    crate::hex::hex_digit_val(c) is Some
}

/// 32 hex digits.
pub open spec fn simple_uuid(b: Seq<u8>) -> bool {
    b.len() == 32 && forall|i: int| 0 <= i < 32 ==> uuid_hex(#[trigger] b[i])
}

/// 32 hex digits in groups of 8, 4, 4, 4 and 12, joined by hyphens.
pub open spec fn hyphenated_uuid(b: Seq<u8>) -> bool {
    b.len() == 36 && forall|i: int|
        0 <= i < 36 ==> if i == 8 || i == 13 || i == 18 || i == 23 {
            #[trigger] b[i] == 0x2du8
        } else {
            uuid_hex(b[i])
        }
}

/// A byte in ASCII lower case.
pub open spec fn ascii_lower_byte(c: u8) -> u8 {
    if 0x41 <= c <= 0x5a {
        (c + 32) as u8
    } else {
        c
    }
}

/// The bytes of `urn:uuid:`, in any letter case.
pub open spec fn urn_prefix(b: Seq<u8>) -> bool {
    b.len() == 9 && b.map_values(|c: u8| ascii_lower_byte(c)) == seq![
        0x75u8,
        0x72u8,
        0x6eu8,
        0x3au8,
        0x75u8,
        0x75u8,
        0x69u8,
        0x64u8,
        0x3au8,
    ]
}

/// The texts `uuid::Uuid::parse_str` accepts: 32 hex digits, the hyphenated
/// form, the hyphenated form in braces, or the hyphenated form after
/// `urn:uuid:` in any letter case.
pub open spec fn uuid_accepts(b: Seq<u8>) -> bool {
    ||| simple_uuid(b)
    ||| hyphenated_uuid(b)
    ||| (b.len() == 38 && b[0] == 0x7bu8 && b[37] == 0x7du8 && hyphenated_uuid(b.subrange(1, 37)))
    ||| (b.len() == 45 && urn_prefix(b.take(9)) && hyphenated_uuid(b.skip(9)))
}

/// `uuid::Uuid::parse_str`, reduced to whether it succeeds: it accepts
/// exactly the forms `uuid_accepts` lists (uuid's `try_parse`).
#[verifier::external_body]
pub(crate) fn uuid_parses(text: &str) -> (r: bool)
    ensures
        r == uuid_accepts(text.spec_bytes()),
{
    uuid::Uuid::parse_str(text).is_ok()
}

/// What the standard base64 alphabet decodes a text to, or the error's message.
pub uninterp spec fn base64_decoded(text: Seq<char>) -> Result<Seq<u8>, Seq<char>>;

/// `base64::engine::general_purpose::STANDARD.decode`: the bytes, or the
/// decoder's error as text.
#[verifier::external_body]
pub(crate) fn base64_decode(text: &str) -> (r: Result<Vec<u8>, String>)
    ensures
        match r {
            Ok(v) => base64_decoded(text@) == Ok::<Seq<u8>, Seq<char>>(v@),
            Err(e) => base64_decoded(text@) == Err::<Seq<u8>, Seq<char>>(e@),
        },
{
    match base64::Engine::decode(&base64::engine::general_purpose::STANDARD, text) {
        Ok(v) => Ok(v),
        Err(e) => Err(format!("{e}")),
    }
}

/// A six-bit value as a character of the standard base64 alphabet.
pub open spec fn b64_char(v: int) -> char {
    if v < 26 {
        (0x41 + v) as char
    } else if v < 52 {
        (0x61 + v - 26) as char
    } else if v < 62 {
        (0x30 + v - 52) as char
    } else if v == 62 {
        '+'
    } else {
        '/'
    }
}

/// The padded standard-alphabet base64 text of bytes: every three bytes give
/// four characters; a last group of one or two bytes is padded with `=`.
pub open spec fn base64_of(data: Seq<u8>) -> Seq<char>
    decreases data.len(),
{
    if data.len() == 0 {
        Seq::empty()
    } else if data.len() == 1 {
        seq![b64_char(data[0] as int / 4), b64_char((data[0] % 4) * 16), '=', '=']
    } else if data.len() == 2 {
        seq![
            b64_char(data[0] as int / 4),
            b64_char((data[0] % 4) * 16 + data[1] / 16),
            b64_char((data[1] % 16) * 4),
            '=',
        ]
    } else {
        seq![
            b64_char(data[0] as int / 4),
            b64_char((data[0] % 4) * 16 + data[1] / 16),
            b64_char((data[1] % 16) * 4 + data[2] / 64),
            b64_char(data[2] as int % 64),
        ] + base64_of(data.skip(3))
    }
}

/// `base64::engine::general_purpose::STANDARD.encode`: the padded base64 text
/// of the bytes, as `base64_of` states it.
#[verifier::external_body]
pub(crate) fn base64_encode(data: &[u8]) -> (r: String)
    ensures
        r@ == base64_of(data@),
{
    base64::Engine::encode(&base64::engine::general_purpose::STANDARD, data)
}

} // verus!
