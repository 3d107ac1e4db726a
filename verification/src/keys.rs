//! Key material and the ed25519 signer/verifier. A keypair is held as its
//! 64-byte packed form: the 32-byte secret seed followed by the 32-byte public
//! key derived from it; the derivation, signing and verification themselves
//! are outside calls whose results the uninterpreted functions below name.

use vstd::prelude::*;
use crate::codec::{base58_bytes_of, base58_of};
use crate::errors::CoreError;

verus! {

/// The 32-byte ed25519 public key derived from a 32-byte secret seed.
pub uninterp spec fn ed25519_pubkey(seed: Seq<u8>) -> Seq<u8>;

/// The ed25519 signature of a message under a secret seed. The scheme is
/// deterministic: the seed and the message alone fix the signature.
pub uninterp spec fn ed25519_sign(seed: Seq<u8>, msg: Seq<u8>) -> Seq<u8>;

/// The outcome of strict ed25519 verification of a 64-byte signature value
/// against a public key and a message.
pub uninterp spec fn ed25519_verify(pk: Seq<u8>, msg: Seq<u8>, sig: Seq<u8>) -> bool;

/// Well-formed packed keypair bytes: exactly 64 bytes whose second half is the
/// public key derived from the first half.
pub open spec fn keypair_bytes_wf(b: Seq<u8>) -> bool {
    b.len() == 64 && b.subrange(32, 64) == ed25519_pubkey(b.subrange(0, 32))
}

/// Relies on `solana_sdk::signature::Keypair::new` and `Keypair::to_bytes`:
/// a fresh random keypair serialized as the 32-byte secret seed followed by
/// the 32-byte public key derived from it.
#[verifier::external_body]
fn generate_keypair_bytes() -> (r: Vec<u8>)
    ensures
        r@.len() == 64,
        r@.subrange(32, 64) == ed25519_pubkey(r@.subrange(0, 32)),
{
    solana_sdk::signature::Keypair::new().to_bytes().to_vec()
}

/// Relies on `solana_sdk::signature::Keypair::try_from(&[u8])`: it succeeds
/// exactly on 64 bytes whose second half equals the public key derived from
/// the first half.
#[verifier::external_body]
fn keypair_bytes_parse_ok(b: &Vec<u8>) -> (r: bool)
    ensures
        r == keypair_bytes_wf(b@),
{
    solana_sdk::signature::Keypair::try_from(b.as_slice()).is_ok()
}

/// Relies on `solana_sdk::signer::Signer::sign_message` on a `Keypair`
/// (rebuilt by `Keypair::try_from`, which cannot fail on well-formed bytes):
/// the 64-byte ed25519 signature determined by the secret seed and the message
/// alone; by the scheme's correctness it verifies under the keypair's public
/// half.
#[verifier::external_body]
fn sign_message_raw(kp: &Vec<u8>, msg: &Vec<u8>) -> (r: Vec<u8>)
    requires
        keypair_bytes_wf(kp@),
    ensures
        r@.len() == 64,
        r@ == ed25519_sign(kp@.subrange(0, 32), msg@),
        ed25519_verify(kp@.subrange(32, 64), msg@, r@),
{
    let keypair = solana_sdk::signature::Keypair::try_from(kp.as_slice()).unwrap();
    let signature = solana_sdk::signer::Signer::sign_message(&keypair, msg.as_slice());
    signature.as_ref().to_vec()
}

/// Relies on `solana_sdk::signature::Signature::verify` (with the signature
/// value rebuilt by `Signature::try_from`, which cannot fail on 64 bytes):
/// strict ed25519 verification, false on any cryptographically invalid
/// combination, never panicking.
#[verifier::external_body]
fn verify_raw(pk: &Vec<u8>, msg: &Vec<u8>, sig: &Vec<u8>) -> (r: bool)
    requires
        sig@.len() == 64,
    ensures
        r == ed25519_verify(pk@, msg@, sig@),
{
    let signature = solana_sdk::signature::Signature::try_from(sig.as_slice()).unwrap();
    signature.verify(pk.as_slice(), msg.as_slice())
}

/// Copies `src[from..to]` into a fresh vector.
pub(crate) fn copy_range(src: &Vec<u8>, from: usize, to: usize) -> (r: Vec<u8>)
    requires
        from <= to <= src@.len(),
    ensures
        r@ == src@.subrange(from as int, to as int),
{
    let mut out: Vec<u8> = Vec::new();
    let mut i: usize = from;
    proof {
        assert(out@ =~= src@.subrange(from as int, from as int));
    }
    while i < to
        invariant
            from <= i <= to <= src@.len(),
            out@ == src@.subrange(from as int, i as int),
        decreases to - i,
    {
        out.push(src[i]);
        proof {
            assert(out@ =~= src@.subrange(from as int, i + 1));
        }
        i += 1;
    }
    out
}

/// A fixed 32-byte account identifier. Its textual form is the base58 of the
/// raw bytes; equality is byte-wise.
pub struct PublicKey {
    bytes: Vec<u8>,
}

impl View for PublicKey {
    type V = Seq<u8>;

    closed spec fn view(&self) -> Seq<u8> {
        self.bytes@
    }
}

impl PublicKey {
    /// Invariant: exactly 32 bytes.
    #[verifier::type_invariant]
    closed spec fn type_inv(self) -> bool {
        self.bytes@.len() == 32
    }

    /// Wraps bytes already known to be exactly 32 long.
    pub(crate) fn from_bytes_exact(b: Vec<u8>) -> (r: PublicKey)
        requires
            b@.len() == 32,
        ensures
            r@ == b@,
    {
        PublicKey { bytes: b }
    }

    /// Accepts exactly 32 bytes; anything else is `InvalidPublicKey`.
    pub fn from_bytes(b: Vec<u8>) -> (r: Result<PublicKey, CoreError>)
        ensures
            b@.len() == 32 ==> (r matches Ok(pk) && pk@ == b@),
            b@.len() != 32 ==> r == Err::<PublicKey, CoreError>(CoreError::InvalidPublicKey),
    {
        if b.len() == 32 {
            Ok(PublicKey { bytes: b })
        } else {
            Err(CoreError::InvalidPublicKey)
        }
    }

    pub fn as_bytes(&self) -> (r: &Vec<u8>)
        ensures
            r@ == self@,
    {
        &self.bytes
    }

    /// The base58 textual form of the raw bytes; decoding it yields the raw
    /// bytes back.
    pub fn to_base58(&self) -> (r: String)
        ensures
            r@ == base58_of(self@),
            base58_bytes_of(r@) == Some(self@),
    {
        crate::codec::encode_base58(&self.bytes)
    }
}

impl Clone for PublicKey {
    fn clone(&self) -> (r: Self)
        ensures
            r@ == self@,
    {
        proof {
            use_type_invariant(self);
        }
        let copied = copy_range(&self.bytes, 0, self.bytes.len());
        proof {
            assert(copied@ =~= self.bytes@);
        }
        PublicKey { bytes: copied }
    }
}

/// An ed25519 keypair, held as its packed 64-byte form. It exclusively owns
/// its secret bytes: the only way they leave is `to_secret_bytes`.
pub struct Keypair {
    bytes: Vec<u8>,
}

impl View for Keypair {
    type V = Seq<u8>;

    closed spec fn view(&self) -> Seq<u8> {
        self.bytes@
    }
}

impl Keypair {
    /// Invariant: the packed bytes are well-formed, so the public half is
    /// always the one derived from the secret half.
    #[verifier::type_invariant]
    closed spec fn type_inv(self) -> bool {
        keypair_bytes_wf(self.bytes@)
    }

    /// Generates a fresh keypair from the process-wide secure random source.
    /// Never deterministic; every outcome is well-formed.
    pub fn generate() -> (r: Keypair)
        ensures
            keypair_bytes_wf(r@),
    {
        let b = generate_keypair_bytes();
        Keypair { bytes: b }
    }

    /// Parses the packed 64-byte form. It fails with `MalformedSecret` when
    /// the length is wrong or the embedded public half does not match the
    /// secret half; on well-formed bytes it returns the keypair those bytes
    /// serialize, so parsing is a left inverse of `to_secret_bytes`.
    pub fn from_secret_bytes(b: Vec<u8>) -> (r: Result<Keypair, CoreError>)
        ensures
            keypair_bytes_wf(b@) ==> (r matches Ok(k) && k@ == b@),
            !keypair_bytes_wf(b@) ==> r == Err::<Keypair, CoreError>(CoreError::MalformedSecret),
    {
        if keypair_bytes_parse_ok(&b) {
            Ok(Keypair { bytes: b })
        } else {
            Err(CoreError::MalformedSecret)
        }
    }

    /// Serializes the keypair to its packed 64-byte form.
    pub fn to_secret_bytes(&self) -> (r: Vec<u8>)
        ensures
            r@ == self@,
            keypair_bytes_wf(r@),
    {
        proof {
            use_type_invariant(self);
        }
        let copied = copy_range(&self.bytes, 0, self.bytes.len());
        proof {
            assert(copied@ =~= self.bytes@);
        }
        copied
    }

    /// Pure projection of the public key: the second half of the packed form,
    /// which by the invariant is the key derived from the secret seed.
    pub fn public_of(&self) -> (r: PublicKey)
        ensures
            r@ == self@.subrange(32, 64),
            r@ == ed25519_pubkey(self@.subrange(0, 32)),
    {
        proof {
            use_type_invariant(self);
        }
        let half = copy_range(&self.bytes, 32, 64);
        PublicKey { bytes: half }
    }

    /// Signs an arbitrary message, the empty one included. The signature is
    /// the one determined by the secret seed and the message, and it verifies
    /// under this keypair's public key.
    pub fn sign(&self, message: &Vec<u8>) -> (r: Vec<u8>)
        ensures
            r@.len() == 64,
            r@ == ed25519_sign(self@.subrange(0, 32), message@),
            ed25519_verify(self@.subrange(32, 64), message@, r@),
    {
        proof {
            use_type_invariant(self);
        }
        sign_message_raw(&self.bytes, message)
    }
}

/// Checks an ed25519 signature. A signature value that is not exactly 64
/// bytes fails with `MalformedSignature` before verification is attempted;
/// a cryptographically invalid combination is the `Ok(false)` outcome, never
/// an error.
pub fn verify_signature(pk: &PublicKey, message: &Vec<u8>, signature: &Vec<u8>) -> (r: Result<
    bool,
    CoreError,
>)
    ensures
        signature@.len() == 64 ==> r == Ok::<bool, CoreError>(
            ed25519_verify(pk@, message@, signature@),
        ),
        signature@.len() != 64 ==> r == Err::<bool, CoreError>(CoreError::MalformedSignature),
{
    if signature.len() == 64 {
        Ok(verify_raw(pk.as_bytes(), message, signature))
    } else {
        Err(CoreError::MalformedSignature)
    }
}

} // verus!
