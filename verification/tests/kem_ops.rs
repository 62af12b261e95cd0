use ever_crypto_ffi::descriptors::{free_bytes, FFIError};
use ever_crypto_ffi::kem::{kyber_decapsulate, kyber_encapsulate, kyber_generate_keypair};

fn fresh_keypair() -> (Vec<u8>, Vec<u8>) {
    let kp = kyber_generate_keypair();
    assert!(matches!(kp.error, FFIError::Success));
    let public_key = kp.public_key.expect("public key present on success");
    let secret_key = kp.secret_key.expect("secret key present on success");
    assert_eq!(kp.public_key_len, public_key.len());
    assert_eq!(kp.secret_key_len, secret_key.len());
    (public_key, secret_key)
}

#[test]
fn keypair_has_documented_lengths() {
    let (public_key, secret_key) = fresh_keypair();
    assert_eq!(public_key.len(), 1568);
    assert_eq!(secret_key.len(), 3168);
}

#[test]
fn encapsulate_then_decapsulate_agree() {
    let (public_key, secret_key) = fresh_keypair();

    let enc = kyber_encapsulate(Some(&public_key));
    assert!(matches!(enc.error, FFIError::Success));
    let shared_secret = enc.shared_secret.expect("shared secret present on success");
    let ciphertext = enc.ciphertext.expect("ciphertext present on success");
    assert_eq!(enc.shared_secret_len, shared_secret.len());
    assert_eq!(enc.ciphertext_len, ciphertext.len());
    assert_eq!(shared_secret.len(), 32);
    assert_eq!(ciphertext.len(), 1568);

    let dec = kyber_decapsulate(Some(&ciphertext), Some(&secret_key));
    assert!(matches!(dec.error, FFIError::Success));
    let recovered = dec.data.expect("shared secret present on success");
    assert_eq!(dec.len, recovered.len());
    assert_eq!(recovered, shared_secret);

    free_bytes(Some(shared_secret), enc.shared_secret_len);
    free_bytes(Some(ciphertext), enc.ciphertext_len);
    free_bytes(Some(recovered), dec.len);
}

#[test]
fn two_encapsulations_are_randomized_but_each_decapsulates() {
    let (public_key, secret_key) = fresh_keypair();

    let first = kyber_encapsulate(Some(&public_key));
    let second = kyber_encapsulate(Some(&public_key));
    assert!(matches!(first.error, FFIError::Success));
    assert!(matches!(second.error, FFIError::Success));

    let first_secret = first.shared_secret.unwrap();
    let first_ciphertext = first.ciphertext.unwrap();
    let second_secret = second.shared_secret.unwrap();
    let second_ciphertext = second.ciphertext.unwrap();

    assert_ne!(first_ciphertext, second_ciphertext);
    assert_ne!(first_secret, second_secret);

    let first_dec = kyber_decapsulate(Some(&first_ciphertext), Some(&secret_key));
    assert_eq!(first_dec.data.unwrap(), first_secret);
    let second_dec = kyber_decapsulate(Some(&second_ciphertext), Some(&secret_key));
    assert_eq!(second_dec.data.unwrap(), second_secret);
}

#[test]
fn mismatched_secret_key_yields_different_secret_without_error() {
    let (public_key, _secret_key) = fresh_keypair();
    let (_other_public, other_secret) = fresh_keypair();

    let enc = kyber_encapsulate(Some(&public_key));
    let shared_secret = enc.shared_secret.unwrap();
    let ciphertext = enc.ciphertext.unwrap();

    let dec = kyber_decapsulate(Some(&ciphertext), Some(&other_secret));
    assert!(matches!(dec.error, FFIError::Success));
    let recovered = dec.data.unwrap();
    assert_eq!(recovered.len(), 32);
    assert_ne!(recovered, shared_secret);
}

#[test]
fn null_handles_are_invalid_input_for_kem() {
    let (public_key, secret_key) = fresh_keypair();
    let ciphertext = vec![0u8; 1568];

    let enc = kyber_encapsulate(None);
    assert!(matches!(enc.error, FFIError::InvalidInput));
    assert!(enc.shared_secret.is_none());
    assert!(enc.ciphertext.is_none());
    assert_eq!(enc.shared_secret_len, 0);
    assert_eq!(enc.ciphertext_len, 0);

    for (ct, sk) in [
        (None, Some(&secret_key)),
        (Some(&ciphertext), None),
        (None, None),
    ] {
        let dec = kyber_decapsulate(ct, sk);
        assert!(matches!(dec.error, FFIError::InvalidInput));
        assert!(dec.data.is_none());
        assert_eq!(dec.len, 0);
    }
    drop(public_key);
}

#[test]
fn wrong_public_key_length_is_key_error() {
    for bad_len in [0usize, 100, 1567, 1569] {
        let bad_key = vec![7u8; bad_len];
        let enc = kyber_encapsulate(Some(&bad_key));
        assert!(matches!(enc.error, FFIError::KeyError));
        assert!(enc.shared_secret.is_none());
        assert!(enc.ciphertext.is_none());
        assert_eq!(enc.shared_secret_len, 0);
        assert_eq!(enc.ciphertext_len, 0);
    }
}

#[test]
fn wrong_ciphertext_or_secret_key_length_is_key_error() {
    let (_public_key, secret_key) = fresh_keypair();
    let good_ciphertext = vec![0u8; 1568];

    for bad_len in [0usize, 100, 1567, 1569] {
        let bad_ciphertext = vec![7u8; bad_len];
        let dec = kyber_decapsulate(Some(&bad_ciphertext), Some(&secret_key));
        assert!(matches!(dec.error, FFIError::KeyError));
        assert!(dec.data.is_none());
        assert_eq!(dec.len, 0);
    }

    for bad_len in [0usize, 100, 3167, 3169] {
        let bad_secret = vec![7u8; bad_len];
        let dec = kyber_decapsulate(Some(&good_ciphertext), Some(&bad_secret));
        assert!(matches!(dec.error, FFIError::KeyError));
        assert!(dec.data.is_none());
        assert_eq!(dec.len, 0);
    }
}

#[test]
fn two_keypairs_differ() {
    let (first_public, first_secret) = fresh_keypair();
    let (second_public, second_secret) = fresh_keypair();
    assert_ne!(first_public, second_public);
    assert_ne!(first_secret, second_secret);
}
