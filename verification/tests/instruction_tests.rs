use solkit::instruction::{
    initialize_mint_instruction, mint_to_instruction, rent_sysvar_key, token_program_key,
    TokenOperation, INITIALIZE_MINT_TAG, MINT_TO_TAG,
};
use solkit::keys::PublicKey;

fn key_of(byte: u8) -> PublicKey {
    PublicKey::from_bytes(vec![byte; 32]).unwrap()
}

#[test]
fn program_and_sysvar_identifiers_match_wire_constants() {
    assert_eq!(
        token_program_key().to_base58(),
        "TokenkegQfeZyiNwAJbNbGKPFXCWuBvf9Ss623VQ5DA"
    );
    assert_eq!(
        rent_sysvar_key().to_base58(),
        "SysvarRent111111111111111111111111111111111"
    );
}

#[test]
fn initialize_mint_layout() {
    let mint = key_of(7);
    let auth = key_of(9);
    let ix = initialize_mint_instruction(&mint, &auth, Some(&auth), 9);

    assert_eq!(ix.program_id.as_bytes(), token_program_key().as_bytes());
    assert_eq!(ix.accounts.len(), 2);
    assert_eq!(ix.accounts[0].pubkey.as_bytes(), mint.as_bytes());
    assert!(!ix.accounts[0].is_signer);
    assert!(ix.accounts[0].is_writable);
    assert_eq!(ix.accounts[1].pubkey.as_bytes(), rent_sysvar_key().as_bytes());
    assert!(!ix.accounts[1].is_signer);
    assert!(!ix.accounts[1].is_writable);

    assert_eq!(ix.data.len(), 67);
    assert_eq!(ix.data[0], INITIALIZE_MINT_TAG);
    assert_eq!(ix.data[1], 9);
    assert_eq!(&ix.data[2..34], auth.as_bytes().as_slice());
    assert_eq!(ix.data[34], 1);
    assert_eq!(&ix.data[35..67], auth.as_bytes().as_slice());
}

#[test]
fn initialize_mint_without_freeze_authority() {
    let op = TokenOperation::InitializeMint {
        decimals: 3,
        mint_authority: key_of(4),
        freeze_authority: None,
    };
    let data = op.encode();
    assert_eq!(data.len(), 35);
    assert_eq!(data[0], INITIALIZE_MINT_TAG);
    assert_eq!(data[1], 3);
    assert_eq!(&data[2..34], key_of(4).as_bytes().as_slice());
    assert_eq!(data[34], 0);
}

#[test]
fn mint_to_payload_is_nine_bytes() {
    let ix = mint_to_instruction(&key_of(1), &key_of(2), &key_of(3), 1_000_000);
    assert_eq!(ix.data, vec![MINT_TO_TAG, 0x40, 0x42, 0x0F, 0, 0, 0, 0, 0]);
}

#[test]
fn mint_to_account_order_and_flags() {
    let mint = key_of(1);
    let destination = key_of(2);
    let authority = key_of(3);
    let ix = mint_to_instruction(&mint, &destination, &authority, 42);

    assert_eq!(ix.program_id.as_bytes(), token_program_key().as_bytes());
    assert_eq!(ix.accounts.len(), 3);
    assert_eq!(ix.accounts[0].pubkey.as_bytes(), mint.as_bytes());
    assert!(!ix.accounts[0].is_signer);
    assert!(ix.accounts[0].is_writable);
    assert_eq!(ix.accounts[1].pubkey.as_bytes(), destination.as_bytes());
    assert!(!ix.accounts[1].is_signer);
    assert!(ix.accounts[1].is_writable);
    assert_eq!(ix.accounts[2].pubkey.as_bytes(), authority.as_bytes());
    assert!(ix.accounts[2].is_signer);
    assert!(!ix.accounts[2].is_writable);
}

#[test]
fn mint_to_amount_extremes() {
    let zero = mint_to_instruction(&key_of(1), &key_of(2), &key_of(3), 0);
    assert_eq!(zero.data, vec![MINT_TO_TAG, 0, 0, 0, 0, 0, 0, 0, 0]);

    let max = mint_to_instruction(&key_of(1), &key_of(2), &key_of(3), u64::MAX);
    assert_eq!(
        max.data,
        vec![MINT_TO_TAG, 255, 255, 255, 255, 255, 255, 255, 255]
    );
}
