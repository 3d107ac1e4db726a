use solkit::codec::{
    decode_base58, decode_base64, decode_pubkey, decode_secret, encode_base58, encode_base64,
};
use solkit::errors::CoreError;

#[test]
fn base58_known_vectors() {
    assert_eq!(encode_base58(&vec![]), "");
    assert_eq!(encode_base58(&vec![0]), "1");
    assert_eq!(encode_base58(&vec![0, 0, 1]), "112");
    assert_eq!(encode_base58(&b"hello".to_vec()), "Cn8eVZg");
}

#[test]
fn base58_round_trip_holds() {
    let cases: Vec<Vec<u8>> = vec![
        vec![],
        vec![0],
        vec![0, 0, 0],
        vec![255, 0, 127, 1],
        (0u8..=255).collect(),
    ];
    for b in cases {
        let s = encode_base58(&b);
        assert_eq!(decode_base58(&s).unwrap(), b);
    }
}

#[test]
fn base58_rejects_foreign_characters() {
    assert_eq!(decode_base58("0OIl"), Err(CoreError::InvalidEncoding));
    assert_eq!(decode_base58("hello world"), Err(CoreError::InvalidEncoding));
}

#[test]
fn base58_empty_text_decodes_to_no_bytes() {
    assert_eq!(decode_base58(""), Ok(vec![]));
}

#[test]
fn base64_known_vectors() {
    assert_eq!(encode_base64(&vec![]), "");
    assert_eq!(encode_base64(&b"hello".to_vec()), "aGVsbG8=");
    assert_eq!(decode_base64("aGVsbG8=").unwrap(), b"hello".to_vec());
    assert_eq!(decode_base64("++8=").unwrap(), vec![251, 239]);
}

#[test]
fn base64_round_trip_holds() {
    let cases: Vec<Vec<u8>> = vec![vec![], vec![0], vec![1, 2, 3], (0u8..=255).collect()];
    for b in cases {
        let s = encode_base64(&b);
        assert_eq!(decode_base64(&s).unwrap(), b);
    }
}

#[test]
fn base64_rejects_malformed_text() {
    assert_eq!(decode_base64("!!"), Err(CoreError::InvalidEncoding));
    assert_eq!(decode_base64("aGVsbG8"), Err(CoreError::InvalidEncoding));
}

#[test]
fn pubkey_requires_exactly_32_bytes() {
    let ok = encode_base58(&vec![7; 32]);
    assert_eq!(decode_pubkey(&ok).unwrap().as_bytes(), &vec![7; 32]);

    let short = encode_base58(&vec![7; 31]);
    let long = encode_base58(&vec![7; 33]);
    assert_eq!(
        decode_pubkey(&short).map(|_| ()),
        Err(CoreError::InvalidPublicKey)
    );
    assert_eq!(
        decode_pubkey(&long).map(|_| ()),
        Err(CoreError::InvalidPublicKey)
    );
    assert_eq!(
        decode_pubkey("0OIl").map(|_| ()),
        Err(CoreError::InvalidPublicKey)
    );
}

#[test]
fn secret_requires_exactly_64_bytes() {
    let ok = encode_base58(&vec![5; 64]);
    assert_eq!(decode_secret(&ok).unwrap(), vec![5; 64]);

    let short = encode_base58(&vec![5; 32]);
    assert_eq!(decode_secret(&short), Err(CoreError::InvalidSecretLength));
    assert_eq!(decode_secret("0OIl"), Err(CoreError::InvalidEncoding));
}
