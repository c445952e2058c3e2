//! What other libraries provide: decoders for base64, gzip and UTF-8, and
//! lower case.
//!
//! Nothing here is proved. Each function hands its argument to the library
//! named in its comment, and its contract records what that library documents.
use vstd::prelude::*;
use vstd::utf8::{decode_utf8, valid_utf8};

verus! {

/// What decoding `input` as padded base64 gives: the decoded bytes, or
/// nothing where `input` is not well formed.
pub uninterp spec fn base64_decoded(input: Seq<u8>) -> Option<Seq<u8>>;

/// The content of the first gzip member of `input`, or nothing where `input`
/// does not start with a complete, intact member.
pub uninterp spec fn gzip_inflated(input: Seq<u8>) -> Option<Seq<u8>>;

/// `s` in lower case, by the rules of Unicode.
pub uninterp spec fn lowercase_of(s: Seq<char>) -> Seq<char>;

/// The longest input that the base64 decoder takes.
pub open spec fn base64_limit() -> nat {
    (usize::MAX / 8) as nat
}

/// Calls `data_encoding::BASE64.decode`. The result is a function of the
/// input alone; the decoder refuses to run on more than `usize::MAX / 8`
/// bytes.
#[verifier::external_body]
pub(crate) fn base64_decode(input: &[u8]) -> (out: Option<Vec<u8>>)
    requires
        input@.len() <= base64_limit(),
    ensures
        match out {
            Some(bytes) => base64_decoded(input@) == Some(bytes@),
            None => base64_decoded(input@) is None,
        },
{
    data_encoding::BASE64.decode(input).ok()
}

/// Reads `flate2::read::GzDecoder` on `input` to its end. The result is a
/// function of the input alone.
#[verifier::external_body]
pub(crate) fn gunzip(input: &[u8]) -> (out: Option<Vec<u8>>)
    ensures
        match out {
            Some(bytes) => gzip_inflated(input@) == Some(bytes@),
            None => gzip_inflated(input@) is None,
        },
{
    let mut reader = flate2::read::GzDecoder::new(input);
    let mut bytes = Vec::new();
    match std::io::Read::read_to_end(&mut reader, &mut bytes) {
        Ok(_) => Some(bytes),
        Err(_) => None,
    }
}

/// Calls `String::from_utf8`, which succeeds exactly on well-formed UTF-8 and
/// then holds the characters that the bytes encode.
#[verifier::external_body]
pub(crate) fn utf8_string(bytes: Vec<u8>) -> (out: Option<String>)
    ensures
        match out {
            Some(s) => valid_utf8(bytes@) && s@ == decode_utf8(bytes@),
            None => !valid_utf8(bytes@),
        },
{
    String::from_utf8(bytes).ok()
}

/// Calls `str::to_lowercase`. The result is a function of the characters of
/// `s` alone.
#[verifier::external_body]
pub(crate) fn to_lowercase(s: &str) -> (out: String)
    ensures
        out@ == lowercase_of(s@),
{
    s.to_lowercase()
}

} // verus!
