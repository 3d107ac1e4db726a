//! A small account/signing toolkit for an ed25519-based ledger: base58/base64
//! codecs with strict length validation, keypair material handling, message
//! signing and verification, and byte-exact construction of token-program
//! instructions, together with a uniform response envelope.

pub mod codec;
pub mod errors;
pub mod instruction;
pub mod keys;
pub mod ops;
pub mod response;
