//! Byte-exact construction of token-program instructions. Each operation kind
//! is a variant of a sum type with its own validated fields and a pure
//! serializer, so the fixed discriminant/payload layout of one kind cannot
//! corrupt another's. Account order within an instruction is part of the wire
//! contract and is preserved exactly as produced here.

use vstd::prelude::*;
use crate::keys::PublicKey;

verus! {

/// Discriminant byte of the initialize-mint operation.
pub const INITIALIZE_MINT_TAG: u8 = 0;

/// Discriminant byte of the mint-to operation.
pub const MINT_TO_TAG: u8 = 7;

/// The token program's fixed 32-byte identifier, base58
/// `TokenkegQfeZyiNwAJbNbGKPFXCWuBvf9Ss623VQ5DA`.
pub open spec fn token_program_id() -> Seq<u8> {
    seq![
        6u8, 221u8, 246u8, 225u8, 215u8, 101u8, 161u8, 147u8, 217u8, 203u8, 225u8, 70u8, 206u8,
        235u8, 121u8, 172u8, 28u8, 180u8, 133u8, 237u8, 95u8, 91u8, 55u8, 145u8, 58u8, 140u8,
        245u8, 133u8, 126u8, 255u8, 0u8, 169u8,
    ]
}

/// The rent sysvar's fixed 32-byte identifier, base58
/// `SysvarRent111111111111111111111111111111111`.
pub open spec fn rent_sysvar_id() -> Seq<u8> {
    seq![
        6u8, 167u8, 213u8, 23u8, 25u8, 44u8, 92u8, 81u8, 33u8, 140u8, 201u8, 76u8, 61u8, 74u8,
        241u8, 127u8, 88u8, 218u8, 238u8, 8u8, 155u8, 161u8, 253u8, 68u8, 227u8, 219u8, 217u8,
        138u8, 0u8, 0u8, 0u8, 0u8,
    ]
}

/// Relies on `spl_token::id`, the address declared as
/// `TokenkegQfeZyiNwAJbNbGKPFXCWuBvf9Ss623VQ5DA`: its raw 32 bytes.
#[verifier::external_body]
fn fetch_token_program_id() -> (r: Vec<u8>)
    ensures
        r@ == token_program_id(),
{
    spl_token::id().to_bytes().to_vec()
}

/// Relies on `solana_sdk::sysvar::rent::id`, the address declared as
/// `SysvarRent111111111111111111111111111111111`: its raw 32 bytes.
#[verifier::external_body]
fn fetch_rent_sysvar_id() -> (r: Vec<u8>)
    ensures
        r@ == rent_sysvar_id(),
{
    solana_sdk::sysvar::rent::id().to_bytes().to_vec()
}

/// The token program identifier as a key value.
pub fn token_program_key() -> (r: PublicKey)
    ensures
        r@ == token_program_id(),
{
    let v = fetch_token_program_id();
    PublicKey::from_bytes_exact(v)
}

/// The rent sysvar identifier as a key value.
pub fn rent_sysvar_key() -> (r: PublicKey)
    ensures
        r@ == rent_sysvar_id(),
{
    let v = fetch_rent_sysvar_id();
    PublicKey::from_bytes_exact(v)
}

/// An account an instruction touches: its address tagged with whether it must
/// sign and whether it may be written.
pub struct AccountReference {
    pub pubkey: PublicKey,
    pub is_signer: bool,
    pub is_writable: bool,
}

/// A structured request to a ledger program: the target program identifier,
/// an ordered account-reference list, and an opaque binary payload.
pub struct Instruction {
    pub program_id: PublicKey,
    pub accounts: Vec<AccountReference>,
    pub data: Vec<u8>,
}

/// The fixed-width little-endian encoding of an unsigned 64-bit amount.
pub open spec fn u64_le_bytes(n: u64) -> Seq<u8> {
    seq![
        (n & 0xff) as u8,
        ((n >> 8) & 0xff) as u8,
        ((n >> 16) & 0xff) as u8,
        ((n >> 24) & 0xff) as u8,
        ((n >> 32) & 0xff) as u8,
        ((n >> 40) & 0xff) as u8,
        ((n >> 48) & 0xff) as u8,
        ((n >> 56) & 0xff) as u8,
    ]
}

/// The initialize-mint payload: discriminant, decimals byte, 32-byte mint
/// authority, freeze-authority presence flag, and the freeze authority when
/// present.
pub open spec fn initialize_mint_payload(
    decimals: u8,
    mint_authority: Seq<u8>,
    freeze_authority: Option<Seq<u8>>,
) -> Seq<u8> {
    seq![INITIALIZE_MINT_TAG, decimals] + mint_authority + (match freeze_authority {
        Some(f) => seq![1u8] + f,
        None => seq![0u8],
    })
}

/// The mint-to payload: discriminant followed by the little-endian amount.
pub open spec fn mint_to_payload(amount: u64) -> Seq<u8> {
    seq![MINT_TO_TAG] + u64_le_bytes(amount)
}

/// Appends all of `src` to `dst`, in order.
fn push_all(dst: &mut Vec<u8>, src: &Vec<u8>)
    ensures
        final(dst)@ == old(dst)@ + src@,
{
    let mut i: usize = 0;
    proof {
        assert(dst@ =~= old(dst)@ + src@.subrange(0, 0));
    }
    while i < src.len()
        invariant
            i <= src@.len(),
            dst@ == old(dst)@ + src@.subrange(0, i as int),
        decreases src@.len() - i,
    {
        dst.push(src[i]);
        proof {
            assert(dst@ =~= old(dst)@ + src@.subrange(0, i + 1));
        }
        i += 1;
    }
    proof {
        assert(dst@ =~= old(dst)@ + src@);
    }
}

/// Appends the fixed-width little-endian form of `n`.
fn push_u64_le(dst: &mut Vec<u8>, n: u64)
    ensures
        final(dst)@ == old(dst)@ + u64_le_bytes(n),
{
    proof {
        assert(n & 0xff < 256) by (bit_vector);
        assert((n >> 8) & 0xff < 256) by (bit_vector);
        assert((n >> 16) & 0xff < 256) by (bit_vector);
        assert((n >> 24) & 0xff < 256) by (bit_vector);
        assert((n >> 32) & 0xff < 256) by (bit_vector);
        assert((n >> 40) & 0xff < 256) by (bit_vector);
        assert((n >> 48) & 0xff < 256) by (bit_vector);
        assert((n >> 56) & 0xff < 256) by (bit_vector);
    }
    dst.push((n & 0xff) as u8);
    dst.push(((n >> 8) & 0xff) as u8);
    dst.push(((n >> 16) & 0xff) as u8);
    dst.push(((n >> 24) & 0xff) as u8);
    dst.push(((n >> 32) & 0xff) as u8);
    dst.push(((n >> 40) & 0xff) as u8);
    dst.push(((n >> 48) & 0xff) as u8);
    dst.push(((n >> 56) & 0xff) as u8);
    proof {
        assert(dst@ =~= old(dst)@ + u64_le_bytes(n));
    }
}

/// A supported token-program operation with its validated field set.
pub enum TokenOperation {
    /// Create a new mint with the given decimals, mint authority, and
    /// optional freeze authority.
    InitializeMint {
        decimals: u8,
        mint_authority: PublicKey,
        freeze_authority: Option<PublicKey>,
    },
    /// Mint new tokens of a fixed-width unsigned amount.
    MintTo { amount: u64 },
}

impl TokenOperation {
    /// The operation's binary payload in its fixed layout.
    pub open spec fn payload(&self) -> Seq<u8> {
        match self {
            TokenOperation::InitializeMint { decimals, mint_authority, freeze_authority } => {
                initialize_mint_payload(
                    *decimals,
                    mint_authority@,
                    match freeze_authority {
                        Some(f) => Some(f@),
                        None => None,
                    },
                )
            },
            TokenOperation::MintTo { amount } => mint_to_payload(*amount),
        }
    }

    /// Serializes the operation; the result is byte-exact per the layout.
    pub fn encode(&self) -> (r: Vec<u8>)
        ensures
            r@ == self.payload(),
    {
        match self {
            TokenOperation::InitializeMint { decimals, mint_authority, freeze_authority } => {
                let mut out: Vec<u8> = Vec::new();
                out.push(INITIALIZE_MINT_TAG);
                out.push(*decimals);
                push_all(&mut out, mint_authority.as_bytes());
                match freeze_authority {
                    Some(f) => {
                        out.push(1u8);
                        push_all(&mut out, f.as_bytes());
                    },
                    None => {
                        out.push(0u8);
                    },
                }
                proof {
                    assert(out@ =~= self.payload());
                }
                out
            },
            TokenOperation::MintTo { amount } => {
                let mut out: Vec<u8> = Vec::new();
                out.push(MINT_TO_TAG);
                push_u64_le(&mut out, *amount);
                proof {
                    assert(out@ =~= self.payload());
                }
                out
            },
        }
    }
}

/// Builds the initialize-mint instruction: the account list is, in order, the
/// mint (writable, not a signer) and the rent sysvar (read-only), and the
/// payload follows the fixed layout. Pure and total: it never fails on
/// already-validated keys.
pub fn initialize_mint_instruction(
    mint: &PublicKey,
    mint_authority: &PublicKey,
    freeze_authority: Option<&PublicKey>,
    decimals: u8,
) -> (r: Instruction)
    ensures
        r.program_id@ == token_program_id(),
        r.accounts@.len() == 2,
        r.accounts@[0].pubkey@ == mint@,
        r.accounts@[0].is_signer == false,
        r.accounts@[0].is_writable == true,
        r.accounts@[1].pubkey@ == rent_sysvar_id(),
        r.accounts@[1].is_signer == false,
        r.accounts@[1].is_writable == false,
        r.data@ == initialize_mint_payload(
            decimals,
            mint_authority@,
            (match freeze_authority {
                Some(f) => Some(f@),
                None => None,
            }),
        ),
{
    let op = TokenOperation::InitializeMint {
        decimals,
        mint_authority: mint_authority.clone(),
        freeze_authority: match freeze_authority {
            Some(f) => Some(f.clone()),
            None => None,
        },
    };
    let data = op.encode();
    let mut accounts: Vec<AccountReference> = Vec::new();
    accounts.push(AccountReference { pubkey: mint.clone(), is_signer: false, is_writable: true });
    accounts.push(
        AccountReference { pubkey: rent_sysvar_key(), is_signer: false, is_writable: false },
    );
    Instruction { program_id: token_program_key(), accounts, data }
}

/// Builds the mint-to instruction: the account list is, in order, the mint
/// (writable), the destination (writable) and the authority (signer), and the
/// payload is the discriminant followed by the little-endian amount. Pure and
/// total on already-validated keys.
pub fn mint_to_instruction(
    mint: &PublicKey,
    destination: &PublicKey,
    authority: &PublicKey,
    amount: u64,
) -> (r: Instruction)
    ensures
        r.program_id@ == token_program_id(),
        r.accounts@.len() == 3,
        r.accounts@[0].pubkey@ == mint@,
        r.accounts@[0].is_signer == false,
        r.accounts@[0].is_writable == true,
        r.accounts@[1].pubkey@ == destination@,
        r.accounts@[1].is_signer == false,
        r.accounts@[1].is_writable == true,
        r.accounts@[2].pubkey@ == authority@,
        r.accounts@[2].is_signer == true,
        r.accounts@[2].is_writable == false,
        r.data@ == mint_to_payload(amount),
{
    let op = TokenOperation::MintTo { amount };
    let data = op.encode();
    let mut accounts: Vec<AccountReference> = Vec::new();
    accounts.push(AccountReference { pubkey: mint.clone(), is_signer: false, is_writable: true });
    accounts.push(
        AccountReference { pubkey: destination.clone(), is_signer: false, is_writable: true },
    );
    accounts.push(
        AccountReference { pubkey: authority.clone(), is_signer: true, is_writable: false },
    );
    Instruction { program_id: token_program_key(), accounts, data }
}

/// Law: with a freeze authority present the initialize-mint payload is 67
/// bytes — the discriminant, the decimals byte, the 32-byte mint authority at
/// offsets 2..34, the presence flag 1 at offset 34, and the freeze authority
/// at offsets 35..67; without one it is 35 bytes ending in the flag 0.
pub proof fn lemma_initialize_mint_payload_layout(
    decimals: u8,
    mint_authority: Seq<u8>,
    freeze: Seq<u8>,
)
    requires
        mint_authority.len() == 32,
        freeze.len() == 32,
    ensures
        initialize_mint_payload(decimals, mint_authority, Some(freeze)).len() == 67,
        initialize_mint_payload(decimals, mint_authority, Some(freeze))[0]
            == INITIALIZE_MINT_TAG,
        initialize_mint_payload(decimals, mint_authority, Some(freeze))[1] == decimals,
        initialize_mint_payload(decimals, mint_authority, Some(freeze)).subrange(2, 34)
            == mint_authority,
        initialize_mint_payload(decimals, mint_authority, Some(freeze))[34] == 1u8,
        initialize_mint_payload(decimals, mint_authority, Some(freeze)).subrange(35, 67)
            == freeze,
        initialize_mint_payload(decimals, mint_authority, None).len() == 35,
        initialize_mint_payload(decimals, mint_authority, None)[34] == 0u8,
{
    assert(initialize_mint_payload(decimals, mint_authority, Some(freeze)).subrange(2, 34)
        =~= mint_authority);
    assert(initialize_mint_payload(decimals, mint_authority, Some(freeze)).subrange(35, 67)
        =~= freeze);
}

/// Law: the mint-to payload is exactly 9 bytes — the discriminant followed by
/// the 8-byte little-endian encoding of the amount.
pub proof fn lemma_mint_to_payload_layout(amount: u64)
    ensures
        mint_to_payload(amount).len() == 9,
        mint_to_payload(amount)[0] == MINT_TO_TAG,
        mint_to_payload(amount).subrange(1, 9) == u64_le_bytes(amount),
{
    assert(mint_to_payload(amount).subrange(1, 9) =~= u64_le_bytes(amount));
}

} // verus!
