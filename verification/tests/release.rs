use ever_crypto_ffi::aead::{xchacha_encrypt, xchacha_generate_key, xchacha_generate_nonce};
use ever_crypto_ffi::descriptors::{create_boxed_slice, free_bytes, FFIError};
use ever_crypto_ffi::kem::{kyber_encapsulate, kyber_generate_keypair};

#[test]
fn releasing_null_is_a_no_op() {
    free_bytes(None, 0);
    free_bytes(None, 1234);
}

#[test]
fn releasing_every_success_buffer_does_not_fault() {
    let key_result = xchacha_generate_key();
    assert!(matches!(key_result.error, FFIError::Success));
    let key = key_result.data.unwrap();

    let nonce_result = xchacha_generate_nonce();
    let nonce = nonce_result.data.unwrap();

    let plaintext = b"release me".to_vec();
    let sealed = xchacha_encrypt(Some(&key), Some(&nonce), Some(&plaintext), None);
    assert!(matches!(sealed.error, FFIError::Success));
    free_bytes(sealed.data, sealed.len);

    let keypair = kyber_generate_keypair();
    let public_key = keypair.public_key.unwrap();
    let enc = kyber_encapsulate(Some(&public_key));
    assert!(matches!(enc.error, FFIError::Success));
    free_bytes(enc.shared_secret, enc.shared_secret_len);
    free_bytes(enc.ciphertext, enc.ciphertext_len);

    free_bytes(Some(key), key_result.len);
    free_bytes(Some(nonce), nonce_result.len);
    free_bytes(keypair.secret_key, keypair.secret_key_len);
}

#[test]
fn export_reports_exact_bytes_and_length() {
    let payload = vec![1u8, 2, 3, 4, 5];
    let (buffer, len) = create_boxed_slice(payload.clone());
    assert_eq!(buffer, payload);
    assert_eq!(len, 5);
    free_bytes(Some(buffer), len);

    let (empty_buffer, empty_len) = create_boxed_slice(Vec::new());
    assert!(empty_buffer.is_empty());
    assert_eq!(empty_len, 0);
}
