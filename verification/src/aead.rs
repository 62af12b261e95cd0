//! Operation adapters for the authenticated-encryption capability: key and
//! nonce generation, seal and open.
//!
//! Each adapter runs the same pipeline: validate required handles, check
//! the domain lengths, invoke the primitive, export the produced bytes.
//! The first failing stage short-circuits with its error code and a null
//! descriptor.

use vstd::prelude::*;

use crate::descriptors::{create_boxed_slice, FFIDataResult, FFIError, FFIKeyResult};
use crate::primitives::{
    aad_view, generate_key_bytes, generate_nonce_bytes, open_bytes, open_of, open_within_limit,
    seal_bytes, seal_of, seal_within_limit, AEAD_TAG_LEN, OPEN_MAX_CIPHERTEXT_LEN,
    SEAL_MAX_PLAINTEXT_LEN, XCHACHA_KEY_LEN, XCHACHA_NONCE_LEN,
};

verus! {

/// Generate a fresh random symmetric key and export it to the caller.
pub fn xchacha_generate_key() -> (r: FFIKeyResult)
    ensures
        r.wf(),
        r.error is Success,
        r.data matches Some(d) && d@.len() == XCHACHA_KEY_LEN,
        r.len == XCHACHA_KEY_LEN,
{
    let key = generate_key_bytes();
    let (data, len) = create_boxed_slice(key);
    FFIKeyResult { data: Some(data), len, error: FFIError::Success }
}

/// Generate a fresh random nonce and export it to the caller. Nonce
/// uniqueness per key across calls is the caller's responsibility.
pub fn xchacha_generate_nonce() -> (r: FFIKeyResult)
    ensures
        r.wf(),
        r.error is Success,
        r.data matches Some(d) && d@.len() == XCHACHA_NONCE_LEN,
        r.len == XCHACHA_NONCE_LEN,
{
    let nonce = generate_nonce_bytes();
    let (data, len) = create_boxed_slice(nonce);
    FFIKeyResult { data: Some(data), len, error: FFIError::Success }
}

/// Seal `plaintext` under `key` and `nonce`, authenticating the optional
/// associated data. Key, nonce and plaintext are required handles; a null
/// associated-data handle means "absent" and is authenticated as the empty
/// byte string, as a present but empty one is.
///
/// On success the exported ciphertext is the sealing of the inputs, carries
/// the fixed-length authentication tag, and opens back to the plaintext
/// under the same key, nonce and associated data. A plaintext beyond the
/// primitive's keystream limit cannot be sealed and is reported as
/// `EncryptionError` without invoking the primitive.
pub fn xchacha_encrypt(
    key: Option<&Vec<u8>>,
    nonce: Option<&Vec<u8>>,
    plaintext: Option<&Vec<u8>>,
    aad: Option<&Vec<u8>>,
) -> (r: FFIDataResult)
    ensures
        r.wf(),
        r.error is InvalidInput <==> (key is None || nonce is None || plaintext is None),
        key matches Some(k) ==> nonce matches Some(n) ==> plaintext matches Some(p) ==> {
            &&& r.error is KeyError <==> (k@.len() != XCHACHA_KEY_LEN
                || n@.len() != XCHACHA_NONCE_LEN)
            &&& r.error is EncryptionError <==> (k@.len() == XCHACHA_KEY_LEN
                && n@.len() == XCHACHA_NONCE_LEN && !seal_within_limit(p@.len()))
            &&& r.error is Success <==> (k@.len() == XCHACHA_KEY_LEN
                && n@.len() == XCHACHA_NONCE_LEN && seal_within_limit(p@.len()))
            &&& r.error is Success ==> (r.data matches Some(c)
                && c@ == seal_of(k@, n@, p@, aad_view(aad))
                && c@.len() == p@.len() + AEAD_TAG_LEN
                && open_of(k@, n@, c@, aad_view(aad)) == Some(p@))
        },
{
    if key.is_none() || nonce.is_none() || plaintext.is_none() {
        return FFIDataResult { data: None, len: 0, error: FFIError::InvalidInput };
    }
    let key = key.unwrap();
    let nonce = nonce.unwrap();
    let plaintext = plaintext.unwrap();
    if key.len() != XCHACHA_KEY_LEN || nonce.len() != XCHACHA_NONCE_LEN {
        return FFIDataResult { data: None, len: 0, error: FFIError::KeyError };
    }
    if plaintext.len() as u64 > SEAL_MAX_PLAINTEXT_LEN {
        return FFIDataResult { data: None, len: 0, error: FFIError::EncryptionError };
    }
    match seal_bytes(key, nonce, plaintext, aad) {
        Some(ciphertext) => {
            let (data, len) = create_boxed_slice(ciphertext);
            FFIDataResult { data: Some(data), len, error: FFIError::Success }
        },
        None => FFIDataResult { data: None, len: 0, error: FFIError::EncryptionError },
    }
}

/// Open `ciphertext` under `key` and `nonce`, checking the optional
/// associated data. Key, nonce and ciphertext are required handles.
///
/// Success returns exactly the plaintext that opening yields, shorter than
/// the ciphertext by exactly the authentication tag; every authentication
/// failure — wrong key, wrong nonce, tampered ciphertext or altered
/// associated data — is the same `DecryptionError`. A ciphertext beyond the
/// primitive's keystream limit cannot have been produced by sealing and is
/// likewise reported as `DecryptionError` without invoking the primitive.
pub fn xchacha_decrypt(
    key: Option<&Vec<u8>>,
    nonce: Option<&Vec<u8>>,
    ciphertext: Option<&Vec<u8>>,
    aad: Option<&Vec<u8>>,
) -> (r: FFIDataResult)
    ensures
        r.wf(),
        r.error is InvalidInput <==> (key is None || nonce is None || ciphertext is None),
        key matches Some(k) ==> nonce matches Some(n) ==> ciphertext matches Some(c) ==> {
            &&& r.error is KeyError <==> (k@.len() != XCHACHA_KEY_LEN
                || n@.len() != XCHACHA_NONCE_LEN)
            &&& r.error is Success ==> (r.data matches Some(p)
                && open_of(k@, n@, c@, aad_view(aad)) == Some(p@)
                && c@.len() == p@.len() + AEAD_TAG_LEN)
            &&& k@.len() == XCHACHA_KEY_LEN && n@.len() == XCHACHA_NONCE_LEN
                && open_within_limit(c@.len()) ==> (
                r.error is Success <==> open_of(k@, n@, c@, aad_view(aad)) is Some)
            &&& k@.len() == XCHACHA_KEY_LEN && n@.len() == XCHACHA_NONCE_LEN
                && !open_within_limit(c@.len()) ==> r.error is DecryptionError
            &&& k@.len() == XCHACHA_KEY_LEN && n@.len() == XCHACHA_NONCE_LEN
                && !(r.error is Success) ==> r.error is DecryptionError
        },
{
    if key.is_none() || nonce.is_none() || ciphertext.is_none() {
        return FFIDataResult { data: None, len: 0, error: FFIError::InvalidInput };
    }
    let key = key.unwrap();
    let nonce = nonce.unwrap();
    let ciphertext = ciphertext.unwrap();
    if key.len() != XCHACHA_KEY_LEN || nonce.len() != XCHACHA_NONCE_LEN {
        return FFIDataResult { data: None, len: 0, error: FFIError::KeyError };
    }
    if ciphertext.len() as u64 > OPEN_MAX_CIPHERTEXT_LEN {
        return FFIDataResult { data: None, len: 0, error: FFIError::DecryptionError };
    }
    match open_bytes(key, nonce, ciphertext, aad) {
        Some(plaintext) => {
            let (data, len) = create_boxed_slice(plaintext);
            FFIDataResult { data: Some(data), len, error: FFIError::Success }
        },
        None => FFIDataResult { data: None, len: 0, error: FFIError::DecryptionError },
    }
}

} // verus!
