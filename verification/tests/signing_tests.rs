use solkit::errors::CoreError;
use solkit::keys::{verify_signature, Keypair};

#[test]
fn sign_then_verify_succeeds() {
    let kp = Keypair::generate();
    let msg = b"hello".to_vec();
    let sig = kp.sign(&msg);
    assert_eq!(sig.len(), 64);
    let pk = kp.public_of();
    assert_eq!(verify_signature(&pk, &msg, &sig), Ok(true));
}

#[test]
fn empty_message_signs_and_verifies() {
    let kp = Keypair::generate();
    let msg: Vec<u8> = vec![];
    let sig = kp.sign(&msg);
    assert_eq!(verify_signature(&kp.public_of(), &msg, &sig), Ok(true));
}

#[test]
fn verify_fails_for_different_message() {
    let kp = Keypair::generate();
    let m1 = b"first message".to_vec();
    let m2 = b"second message".to_vec();
    let sig = kp.sign(&m2);
    assert_eq!(verify_signature(&kp.public_of(), &m1, &sig), Ok(false));
}

#[test]
fn verify_fails_for_other_key() {
    let kp = Keypair::generate();
    let other = Keypair::generate();
    let msg = b"hello".to_vec();
    let sig = kp.sign(&msg);
    assert_eq!(verify_signature(&other.public_of(), &msg, &sig), Ok(false));
}

#[test]
fn wrong_length_signature_is_malformed() {
    let kp = Keypair::generate();
    let msg = b"hello".to_vec();
    assert_eq!(
        verify_signature(&kp.public_of(), &msg, &vec![1; 63]),
        Err(CoreError::MalformedSignature)
    );
    assert_eq!(
        verify_signature(&kp.public_of(), &msg, &vec![1; 65]),
        Err(CoreError::MalformedSignature)
    );
    assert_eq!(
        verify_signature(&kp.public_of(), &msg, &vec![]),
        Err(CoreError::MalformedSignature)
    );
}

#[test]
fn keypair_serialization_round_trip() {
    let kp = Keypair::generate();
    let bytes = kp.to_secret_bytes();
    assert_eq!(bytes.len(), 64);
    let reparsed = Keypair::from_secret_bytes(bytes).unwrap();
    assert_eq!(
        reparsed.public_of().as_bytes(),
        kp.public_of().as_bytes()
    );
}

#[test]
fn public_half_is_embedded_in_secret_bytes() {
    let kp = Keypair::generate();
    let bytes = kp.to_secret_bytes();
    assert_eq!(&bytes[32..], kp.public_of().as_bytes().as_slice());
}

#[test]
fn mismatched_halves_are_malformed() {
    let mut bytes = Keypair::generate().to_secret_bytes();
    bytes[40] ^= 1;
    match Keypair::from_secret_bytes(bytes) {
        Err(e) => assert_eq!(e, CoreError::MalformedSecret),
        Ok(_) => panic!("a corrupted public half must be rejected"),
    }
}

#[test]
fn wrong_length_secret_is_malformed() {
    match Keypair::from_secret_bytes(vec![3; 63]) {
        Err(e) => assert_eq!(e, CoreError::MalformedSecret),
        Ok(_) => panic!("63 bytes must be rejected"),
    }
}
