//! Text encodings of byte strings: base58 (Bitcoin alphabet) and standard
//! base64 with padding.
use base64::engine::general_purpose::STANDARD;
use base64::Engine;
use vstd::prelude::*;

verus! {

/// The base58 text of a byte string.
pub uninterp spec fn base58_text(b: Seq<u8>) -> Seq<char>;

/// The bytes that a base58 text stands for, or `None` where it is no base58.
pub uninterp spec fn base58_bytes(s: Seq<char>) -> Option<Seq<u8>>;

/// The standard base64 text, with padding, of a byte string.
pub uninterp spec fn base64_text(b: Seq<u8>) -> Seq<char>;

/// The bytes that a standard base64 text stands for, or `None`.
pub uninterp spec fn base64_bytes(s: Seq<char>) -> Option<Seq<u8>>;

/// Relies on `bs58::encode(..).into_string()`: the text depends on the bytes
/// alone, and decoding it gives the bytes back.
#[verifier::external_body]
pub(crate) fn encode_base58(b: &[u8]) -> (r: String)
    ensures
        r@ == base58_text(b@),
        base58_bytes(r@) == Some(b@),
{
    bs58::encode(b).into_string()
}

/// Relies on `bs58::decode(..).into_vec()`: the outcome depends on the text
/// alone.
#[verifier::external_body]
pub(crate) fn decode_base58(s: &str) -> (r: Option<Vec<u8>>)
    ensures
        r is Some <==> base58_bytes(s@) is Some,
        r is Some ==> r->0@ == base58_bytes(s@)->0,
{
    match bs58::decode(s).into_vec() {
        Ok(v) => Some(v),
        Err(_) => None,
    }
}

/// Relies on `base64::engine::general_purpose::STANDARD.encode`: the text
/// depends on the bytes alone, decoding it gives the bytes back, and four
/// characters stand for each started group of three bytes.
#[verifier::external_body]
pub(crate) fn encode_base64(b: &[u8]) -> (r: String)
    ensures
        r@ == base64_text(b@),
        base64_bytes(r@) == Some(b@),
        b@.len() > 0 ==> r@.len() > 0,
{
    STANDARD.encode(b)
}

/// Relies on `base64::engine::general_purpose::STANDARD.decode`: the outcome
/// depends on the text alone.
#[verifier::external_body]
pub(crate) fn decode_base64(s: &str) -> (r: Option<Vec<u8>>)
    ensures
        r is Some <==> base64_bytes(s@) is Some,
        r is Some ==> r->0@ == base64_bytes(s@)->0,
{
    match STANDARD.decode(s) {
        Ok(v) => Some(v),
        Err(_) => None,
    }
}

} // verus!
