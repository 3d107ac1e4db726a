//! Base58 and base64 text codecs with strict length validation. The encoders
//! and decoders themselves are outside calls; their results are named by the
//! uninterpreted functions below, and the one fact relied on beyond determinism
//! is that decoding inverts encoding.

use vstd::prelude::*;
use crate::errors::CoreError;
use crate::keys::PublicKey;
use base64::Engine;

verus! {

/// The base58 text of a byte sequence.
pub uninterp spec fn base58_of(b: Seq<u8>) -> Seq<char>;

/// The bytes a base58 text decodes to, or `None` on text outside the alphabet.
pub uninterp spec fn base58_bytes_of(s: Seq<char>) -> Option<Seq<u8>>;

/// The base64 text of a byte sequence (standard alphabet, padded).
pub uninterp spec fn base64_of(b: Seq<u8>) -> Seq<char>;

/// The bytes a base64 text decodes to, or `None` on malformed text.
pub uninterp spec fn base64_bytes_of(s: Seq<char>) -> Option<Seq<u8>>;

/// Relies on `bs58::encode`: the base58 text of the bytes, which
/// `bs58::decode` takes back to exactly those bytes.
#[verifier::external_body]
fn bs58_encode_raw(b: &Vec<u8>) -> (r: String)
    ensures
        r@ == base58_of(b@),
        base58_bytes_of(r@) == Some(b@),
        b@.len() == 0 ==> r@.len() == 0,
{
    bs58::encode(b.as_slice()).into_string()
}

/// Relies on `bs58::decode`: the bytes of valid base58 text, `None` exactly
/// when a character falls outside the alphabet; empty text decodes to no bytes.
#[verifier::external_body]
fn bs58_decode_raw(s: &str) -> (r: Option<Vec<u8>>)
    ensures
        (match r {
            Some(v) => base58_bytes_of(s@) == Some(v@),
            None => base58_bytes_of(s@) is None,
        }),
        s@.len() == 0 ==> r is Some,
        s@.len() == 0 ==> r->Some_0@ == Seq::<u8>::empty(),
{
    bs58::decode(s).into_vec().ok()
}

/// Relies on `base64::engine::general_purpose::STANDARD.encode`: the padded
/// standard-alphabet base64 text of the bytes, which the same engine's
/// `decode` takes back to exactly those bytes.
#[verifier::external_body]
fn b64_encode_raw(b: &Vec<u8>) -> (r: String)
    ensures
        r@ == base64_of(b@),
        base64_bytes_of(r@) == Some(b@),
        b@.len() == 0 ==> r@.len() == 0,
{
    base64::engine::general_purpose::STANDARD.encode(b.as_slice())
}

/// Relies on `base64::engine::general_purpose::STANDARD.decode`: the bytes of
/// valid padded base64 text, `None` exactly on malformed text.
#[verifier::external_body]
fn b64_decode_raw(s: &str) -> (r: Option<Vec<u8>>)
    ensures
        (match r {
            Some(v) => base64_bytes_of(s@) == Some(v@),
            None => base64_bytes_of(s@) is None,
        }),
        s@.len() == 0 ==> r is Some,
        s@.len() == 0 ==> r->Some_0@ == Seq::<u8>::empty(),
{
    base64::engine::general_purpose::STANDARD.decode(s).ok()
}

/// Encodes bytes as base58 text. Total: it never fails, and decoding the
/// result yields the input back (the round-trip law).
pub fn encode_base58(b: &Vec<u8>) -> (r: String)
    ensures
        r@ == base58_of(b@),
        base58_bytes_of(r@) == Some(b@),
{
    bs58_encode_raw(b)
}

/// Decodes base58 text, accepting only characters of the base58 alphabet;
/// empty text decodes to the empty byte sequence.
pub fn decode_base58(s: &str) -> (r: Result<Vec<u8>, CoreError>)
    ensures
        match r {
            Ok(v) => base58_bytes_of(s@) == Some(v@),
            Err(e) => e == CoreError::InvalidEncoding && base58_bytes_of(s@) is None,
        },
        s@.len() == 0 ==> (r matches Ok(v) && v@ == Seq::<u8>::empty()),
{
    match bs58_decode_raw(s) {
        Some(v) => Ok(v),
        None => Err(CoreError::InvalidEncoding),
    }
}

/// Encodes bytes as padded standard-alphabet base64 text. Total, and decoding
/// the result yields the input back (the round-trip law).
pub fn encode_base64(b: &Vec<u8>) -> (r: String)
    ensures
        r@ == base64_of(b@),
        base64_bytes_of(r@) == Some(b@),
{
    b64_encode_raw(b)
}

/// Decodes padded standard-alphabet base64 text.
pub fn decode_base64(s: &str) -> (r: Result<Vec<u8>, CoreError>)
    ensures
        match r {
            Ok(v) => base64_bytes_of(s@) == Some(v@),
            Err(e) => e == CoreError::InvalidEncoding && base64_bytes_of(s@) is None,
        },
        s@.len() == 0 ==> (r matches Ok(v) && v@ == Seq::<u8>::empty()),
{
    match b64_decode_raw(s) {
        Some(v) => Ok(v),
        None => Err(CoreError::InvalidEncoding),
    }
}

/// Decodes a base58 address and requires exactly 32 bytes: anything else,
/// including 31- or 33-byte values, fails with `InvalidPublicKey` rather than
/// being truncated or padded.
pub fn decode_pubkey(s: &str) -> (r: Result<PublicKey, CoreError>)
    ensures
        match r {
            Ok(pk) => base58_bytes_of(s@) == Some(pk@) && pk@.len() == 32,
            Err(e) => e == CoreError::InvalidPublicKey
                && match base58_bytes_of(s@) {
                    Some(b) => b.len() != 32,
                    None => true,
                },
        },
{
    match bs58_decode_raw(s) {
        Some(v) => PublicKey::from_bytes(v),
        None => Err(CoreError::InvalidPublicKey),
    }
}

/// Decodes a base58 secret and requires exactly 64 bytes (the packed
/// private-seed-plus-public form). Malformed text and wrong length are
/// reported apart, in that order.
pub fn decode_secret(s: &str) -> (r: Result<Vec<u8>, CoreError>)
    ensures
        match r {
            Ok(v) => base58_bytes_of(s@) == Some(v@) && v@.len() == 64,
            Err(e) => match base58_bytes_of(s@) {
                Some(b) => b.len() != 64 && e == CoreError::InvalidSecretLength,
                None => e == CoreError::InvalidEncoding,
            },
        },
{
    match bs58_decode_raw(s) {
        Some(v) => {
            if v.len() == 64 {
                Ok(v)
            } else {
                Err(CoreError::InvalidSecretLength)
            }
        },
        None => Err(CoreError::InvalidEncoding),
    }
}

} // verus!
