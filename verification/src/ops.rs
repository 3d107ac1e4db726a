//! The five request-level operations, each a pure function from already
//! decoded plain values to a typed result. Every validation step is terminal
//! and runs in a fixed order, and each error names exactly the inputs on which
//! it occurs.

use vstd::prelude::*;
use crate::codec::{
    base58_bytes_of, base58_of, base64_bytes_of, base64_of, decode_base58, decode_base64,
    decode_pubkey, decode_secret, encode_base58, encode_base64,
};
use crate::errors::CoreError;
use crate::instruction::{
    initialize_mint_instruction, initialize_mint_payload, mint_to_instruction, mint_to_payload,
    rent_sysvar_id, token_program_id, Instruction,
};
use crate::keys::{
    copy_range, ed25519_sign, ed25519_verify, keypair_bytes_wf, verify_signature, Keypair,
    PublicKey,
};

verus! {

/// The textual form of a freshly generated keypair.
pub struct KeypairResponse {
    pub pubkey: String,
    pub secret: String,
}

/// Generates a fresh keypair and renders it: the base58 public key and the
/// base58 of the packed 64 secret bytes. No inputs, no failure path. Both
/// texts decode back: the pubkey to the 32-byte public half, the secret to
/// the well-formed 64-byte blob, so re-parsing the secret yields a keypair
/// with this public key.
pub fn generate_keypair_op() -> (r: KeypairResponse)
    ensures
        exists|kp: Seq<u8>|
            #[trigger] keypair_bytes_wf(kp) && r.pubkey@ == base58_of(kp.subrange(32, 64))
                && r.secret@ == base58_of(kp) && base58_bytes_of(r.pubkey@) == Some(
                kp.subrange(32, 64),
            ) && base58_bytes_of(r.secret@) == Some(kp),
{
    let kp = Keypair::generate();
    let secret = kp.to_secret_bytes();
    let pk = kp.public_of();
    let r = KeypairResponse { pubkey: pk.to_base58(), secret: encode_base58(&secret) };
    proof {
        assert(keypair_bytes_wf(kp@) && r.pubkey@ == base58_of(kp@.subrange(32, 64))
            && r.secret@ == base58_of(kp@) && base58_bytes_of(r.pubkey@) == Some(
            kp@.subrange(32, 64),
        ) && base58_bytes_of(r.secret@) == Some(kp@));
    }
    r
}

/// A produced signature beside the signing key's textual form and the echoed
/// message.
pub struct SignedMessageResponse {
    pub signature: String,
    pub public_key: String,
    pub message: Vec<u8>,
}

/// Signs a message with a base58-encoded packed secret. The checks run in
/// order, each terminal: an empty message or secret, text outside the base58
/// alphabet, a decoded length other than 64, and halves that do not form a
/// keypair; then the signature is returned in base64 beside the base58 public
/// key.
pub fn sign_message_op(message: &Vec<u8>, secret_text: &str) -> (r: Result<
    SignedMessageResponse,
    CoreError,
>)
    ensures
        ({
            let decoded = base58_bytes_of(secret_text@);
            if message@.len() == 0 || secret_text@.len() == 0 {
                r == Err::<SignedMessageResponse, CoreError>(CoreError::MissingField)
            } else if decoded is None {
                r == Err::<SignedMessageResponse, CoreError>(CoreError::InvalidEncoding)
            } else if decoded->Some_0.len() != 64 {
                r == Err::<SignedMessageResponse, CoreError>(CoreError::InvalidSecretLength)
            } else if !keypair_bytes_wf(decoded->Some_0) {
                r == Err::<SignedMessageResponse, CoreError>(CoreError::MalformedSecret)
            } else {
                let kp = decoded->Some_0;
                r matches Ok(resp) && resp.signature@ == base64_of(
                    ed25519_sign(kp.subrange(0, 32), message@),
                ) && resp.public_key@ == base58_of(kp.subrange(32, 64)) && resp.message@
                    == message@
            }
        }),
{
    if message.len() == 0 || secret_text.is_empty() {
        return Err(CoreError::MissingField);
    }
    let secret_bytes = match decode_secret(secret_text) {
        Ok(v) => v,
        Err(e) => {
            return Err(e);
        },
    };
    let kp = match Keypair::from_secret_bytes(secret_bytes) {
        Ok(k) => k,
        Err(e) => {
            return Err(e);
        },
    };
    let signature = kp.sign(message);
    let echoed = copy_range(message, 0, message.len());
    proof {
        assert(echoed@ =~= message@);
    }
    Ok(
        SignedMessageResponse {
            signature: encode_base64(&signature),
            public_key: kp.public_of().to_base58(),
            message: echoed,
        },
    )
}

/// A verification verdict beside the echoed message and key text.
pub struct VerifyMessageResponse {
    pub valid: bool,
    pub message: Vec<u8>,
    pub pubkey: String,
}

/// Verifies a base64-encoded signature over a message against a base58 public
/// key. The checks run in order, each terminal: malformed base64, a signature
/// not of 64 bytes, malformed base58, a key not of 32 bytes; cryptographic
/// verification itself cannot fail, only answer true or false.
pub fn verify_message_op(message: &Vec<u8>, signature_text: &str, pubkey_text: &str) -> (r: Result<
    VerifyMessageResponse,
    CoreError,
>)
    ensures
        ({
            let sig = base64_bytes_of(signature_text@);
            let pk = base58_bytes_of(pubkey_text@);
            if sig is None {
                r == Err::<VerifyMessageResponse, CoreError>(CoreError::InvalidEncoding)
            } else if sig->Some_0.len() != 64 {
                r == Err::<VerifyMessageResponse, CoreError>(CoreError::MalformedSignature)
            } else if pk is None {
                r == Err::<VerifyMessageResponse, CoreError>(CoreError::InvalidEncoding)
            } else if pk->Some_0.len() != 32 {
                r == Err::<VerifyMessageResponse, CoreError>(CoreError::InvalidPublicKey)
            } else {
                r matches Ok(resp) && resp.valid == ed25519_verify(
                    pk->Some_0,
                    message@,
                    sig->Some_0,
                ) && resp.message@ == message@ && resp.pubkey@ == pubkey_text@
            }
        }),
{
    let sig_bytes = match decode_base64(signature_text) {
        Ok(v) => v,
        Err(e) => {
            return Err(e);
        },
    };
    if sig_bytes.len() != 64 {
        return Err(CoreError::MalformedSignature);
    }
    let pk_bytes = match decode_base58(pubkey_text) {
        Ok(v) => v,
        Err(e) => {
            return Err(e);
        },
    };
    let pk = match PublicKey::from_bytes(pk_bytes) {
        Ok(k) => k,
        Err(e) => {
            return Err(e);
        },
    };
    let valid = match verify_signature(&pk, message, &sig_bytes) {
        Ok(v) => v,
        Err(e) => {
            return Err(e);
        },
    };
    let echoed = copy_range(message, 0, message.len());
    proof {
        assert(echoed@ =~= message@);
    }
    Ok(VerifyMessageResponse { valid, message: echoed, pubkey: pubkey_text.to_owned() })
}

/// Which address input of an instruction build failed to decode.
#[derive(Clone, Copy, Debug, PartialEq, Eq, Structural)]
pub enum AddressField {
    Mint,
    MintAuthority,
    Destination,
    Authority,
}

/// An instruction build aborted by an address that does not decode to exactly
/// 32 bytes, naming the field that failed.
#[derive(Clone, Copy, Debug, PartialEq, Eq, Structural)]
pub struct BuildError {
    pub field: AddressField,
    pub error: CoreError,
}

/// Decodes the mint and mint-authority addresses, in that order and each
/// failure terminal, then builds the initialize-mint instruction; the freeze
/// authority is always set equal to the mint authority.
pub fn build_initialize_mint_op(mint_text: &str, mint_authority_text: &str, decimals: u8) -> (r:
    Result<Instruction, BuildError>)
    ensures
        ({
            let m = base58_bytes_of(mint_text@);
            let a = base58_bytes_of(mint_authority_text@);
            if !(m matches Some(b) && b.len() == 32) {
                r == Err::<Instruction, BuildError>(
                    (BuildError { field: AddressField::Mint, error: CoreError::InvalidPublicKey }),
                )
            } else if !(a matches Some(b) && b.len() == 32) {
                r == Err::<Instruction, BuildError>(
                    (BuildError {
                        field: AddressField::MintAuthority,
                        error: CoreError::InvalidPublicKey,
                    }),
                )
            } else {
                r matches Ok(ix) && ix.program_id@ == token_program_id() && ix.accounts@.len() == 2
                    && ix.accounts@[0].pubkey@ == m->Some_0 && ix.accounts@[0].is_signer == false
                    && ix.accounts@[0].is_writable == true && ix.accounts@[1].pubkey@
                    == rent_sysvar_id() && ix.accounts@[1].is_signer == false
                    && ix.accounts@[1].is_writable == false && ix.data@ == initialize_mint_payload(
                    decimals,
                    a->Some_0,
                    Some(a->Some_0),
                )
            }
        }),
{
    let mint = match decode_pubkey(mint_text) {
        Ok(k) => k,
        Err(e) => {
            return Err(BuildError { field: AddressField::Mint, error: e });
        },
    };
    let authority = match decode_pubkey(mint_authority_text) {
        Ok(k) => k,
        Err(e) => {
            return Err(BuildError { field: AddressField::MintAuthority, error: e });
        },
    };
    Ok(initialize_mint_instruction(&mint, &authority, Some(&authority), decimals))
}

/// Decodes the mint, destination and authority addresses, in that order and
/// each failure terminal, then builds the mint-to instruction.
pub fn build_mint_to_op(
    mint_text: &str,
    destination_text: &str,
    authority_text: &str,
    amount: u64,
) -> (r: Result<Instruction, BuildError>)
    ensures
        ({
            let m = base58_bytes_of(mint_text@);
            let d = base58_bytes_of(destination_text@);
            let a = base58_bytes_of(authority_text@);
            if !(m matches Some(b) && b.len() == 32) {
                r == Err::<Instruction, BuildError>(
                    (BuildError { field: AddressField::Mint, error: CoreError::InvalidPublicKey }),
                )
            } else if !(d matches Some(b) && b.len() == 32) {
                r == Err::<Instruction, BuildError>(
                    (BuildError {
                        field: AddressField::Destination,
                        error: CoreError::InvalidPublicKey,
                    }),
                )
            } else if !(a matches Some(b) && b.len() == 32) {
                r == Err::<Instruction, BuildError>(
                    (BuildError {
                        field: AddressField::Authority,
                        error: CoreError::InvalidPublicKey,
                    }),
                )
            } else {
                r matches Ok(ix) && ix.program_id@ == token_program_id() && ix.accounts@.len() == 3
                    && ix.accounts@[0].pubkey@ == m->Some_0 && ix.accounts@[0].is_signer == false
                    && ix.accounts@[0].is_writable == true && ix.accounts@[1].pubkey@ == d->Some_0
                    && ix.accounts@[1].is_signer == false && ix.accounts@[1].is_writable == true
                    && ix.accounts@[2].pubkey@ == a->Some_0 && ix.accounts@[2].is_signer == true
                    && ix.accounts@[2].is_writable == false && ix.data@ == mint_to_payload(amount)
            }
        }),
{
    let mint = match decode_pubkey(mint_text) {
        Ok(k) => k,
        Err(e) => {
            return Err(BuildError { field: AddressField::Mint, error: e });
        },
    };
    let destination = match decode_pubkey(destination_text) {
        Ok(k) => k,
        Err(e) => {
            return Err(BuildError { field: AddressField::Destination, error: e });
        },
    };
    let authority = match decode_pubkey(authority_text) {
        Ok(k) => k,
        Err(e) => {
            return Err(BuildError { field: AddressField::Authority, error: e });
        },
    };
    Ok(mint_to_instruction(&mint, &destination, &authority, amount))
}

/// One rendered account reference: the base58 address and the usage flags.
pub struct AccountMetaInfo {
    pub pubkey: String,
    pub is_signer: bool,
    pub is_writable: bool,
}

/// An instruction in its textual wire form.
pub struct InstructionData {
    pub program_id: String,
    pub accounts: Vec<AccountMetaInfo>,
    pub instruction_data: String,
}

/// Renders an instruction: base58 program identifier and account addresses,
/// the flags and the account order preserved exactly, and the payload in
/// base64 (the one textual payload encoding this toolkit uses). Every
/// rendered text decodes back to the bytes it was rendered from.
pub fn render_instruction(ix: &Instruction) -> (r: InstructionData)
    ensures
        r.program_id@ == base58_of(ix.program_id@),
        base58_bytes_of(r.program_id@) == Some(ix.program_id@),
        r.instruction_data@ == base64_of(ix.data@),
        base64_bytes_of(r.instruction_data@) == Some(ix.data@),
        r.accounts@.len() == ix.accounts@.len(),
        forall|i: int|
            #![trigger r.accounts@[i]]
            0 <= i < ix.accounts@.len() ==> {
                &&& r.accounts@[i].pubkey@ == base58_of(ix.accounts@[i].pubkey@)
                &&& base58_bytes_of(r.accounts@[i].pubkey@) == Some(ix.accounts@[i].pubkey@)
                &&& r.accounts@[i].is_signer == ix.accounts@[i].is_signer
                &&& r.accounts@[i].is_writable == ix.accounts@[i].is_writable
            },
{
    let mut accounts: Vec<AccountMetaInfo> = Vec::new();
    let mut i: usize = 0;
    while i < ix.accounts.len()
        invariant
            i <= ix.accounts@.len(),
            accounts@.len() == i,
            forall|j: int|
                #![trigger accounts@[j]]
                0 <= j < i ==> {
                    &&& accounts@[j].pubkey@ == base58_of(ix.accounts@[j].pubkey@)
                    &&& base58_bytes_of(accounts@[j].pubkey@) == Some(ix.accounts@[j].pubkey@)
                    &&& accounts@[j].is_signer == ix.accounts@[j].is_signer
                    &&& accounts@[j].is_writable == ix.accounts@[j].is_writable
                },
        decreases ix.accounts@.len() - i,
    {
        let a = &ix.accounts[i];
        accounts.push(
            AccountMetaInfo {
                pubkey: a.pubkey.to_base58(),
                is_signer: a.is_signer,
                is_writable: a.is_writable,
            },
        );
        i += 1;
    }
    InstructionData {
        program_id: ix.program_id.to_base58(),
        accounts,
        instruction_data: encode_base64(&ix.data),
    }
}

} // verus!
