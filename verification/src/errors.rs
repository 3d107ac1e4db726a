//! The error taxonomy shared by every operation of the toolkit. All of these
//! are local, recoverable conditions surfaced to the caller; none is fatal.

use vstd::prelude::*;

verus! {

/// A typed failure of one of the core operations.
#[derive(Clone, Copy, Debug, PartialEq, Eq, Structural)]
pub enum CoreError {
    /// The text is not valid base58 or base64.
    InvalidEncoding,
    /// The decoded address bytes do not form a 32-byte public key.
    InvalidPublicKey,
    /// The decoded secret is not exactly 64 bytes.
    InvalidSecretLength,
    /// The 64 secret bytes do not form a keypair whose halves agree.
    MalformedSecret,
    /// A required text input is empty.
    MissingField,
    /// The signature is not exactly 64 bytes.
    MalformedSignature,
}

impl CoreError {
    /// The human-readable message carried to the transport layer.
    pub open spec fn message_view(&self) -> Seq<char> {
        match self {
            CoreError::InvalidEncoding => "invalid base58 or base64 encoding"@,
            CoreError::InvalidPublicKey => "invalid public key"@,
            CoreError::InvalidSecretLength => "secret key must be 64 bytes"@,
            CoreError::MalformedSecret => "failed to parse keypair from secret"@,
            CoreError::MissingField => "missing required fields"@,
            CoreError::MalformedSignature => "signature must be 64 bytes"@,
        }
    }

    pub fn message(&self) -> (r: String)
        ensures
            r@ == self.message_view(),
    {
        match self {
            CoreError::InvalidEncoding => "invalid base58 or base64 encoding".to_owned(),
            CoreError::InvalidPublicKey => "invalid public key".to_owned(),
            CoreError::InvalidSecretLength => "secret key must be 64 bytes".to_owned(),
            CoreError::MalformedSecret => "failed to parse keypair from secret".to_owned(),
            CoreError::MissingField => "missing required fields".to_owned(),
            CoreError::MalformedSignature => "signature must be 64 bytes".to_owned(),
        }
    }
}

} // verus!
