//! Operation adapters for the key-encapsulation capability: keypair
//! generation, encapsulation and decapsulation.
//!
//! The same pipeline as the authenticated-encryption adapters: validate
//! required handles, check the domain lengths, invoke the primitive,
//! export the produced bytes, short-circuiting with a null descriptor on
//! the first failure.

use vstd::prelude::*;

use crate::descriptors::{
    create_boxed_slice, FFIDataResult, FFIError, FFIKyberEncapsulateResult, FFIKyberKeyPair,
};
use crate::primitives::{
    decap_of, is_kem_keypair, kem_decapsulate_bytes, kem_encapsulate_bytes,
    kem_generate_keypair_bytes, KYBER_CIPHERTEXT_LEN, KYBER_PUBLIC_KEY_LEN, KYBER_SECRET_KEY_LEN,
    KYBER_SHARED_SECRET_LEN,
};

verus! {

/// Generate a fresh key-encapsulation keypair and export both keys to the
/// caller.
pub fn kyber_generate_keypair() -> (r: FFIKyberKeyPair)
    ensures
        r.wf(),
        r.error is Success,
        r.public_key matches Some(pk) && pk@.len() == KYBER_PUBLIC_KEY_LEN,
        r.secret_key matches Some(sk) && sk@.len() == KYBER_SECRET_KEY_LEN,
        r.public_key matches Some(pk) ==> r.secret_key matches Some(sk) ==> is_kem_keypair(
            pk@,
            sk@,
        ),
{
    let (public_key, secret_key) = kem_generate_keypair_bytes();
    let (public_key, public_key_len) = create_boxed_slice(public_key);
    let (secret_key, secret_key_len) = create_boxed_slice(secret_key);
    FFIKyberKeyPair {
        public_key: Some(public_key),
        public_key_len,
        secret_key: Some(secret_key),
        secret_key_len,
        error: FFIError::Success,
    }
}

/// Encapsulate a fresh shared secret against `public_key`. The public key
/// is a required handle; once it parses, encapsulation never fails.
///
/// On success the exported ciphertext decapsulates to the exported shared
/// secret under every secret key that forms a keypair with `public_key`.
pub fn kyber_encapsulate(public_key: Option<&Vec<u8>>) -> (r: FFIKyberEncapsulateResult)
    ensures
        r.wf(),
        r.error is InvalidInput <==> public_key is None,
        public_key matches Some(pk) ==> {
            &&& r.error is KeyError <==> pk@.len() != KYBER_PUBLIC_KEY_LEN
            &&& pk@.len() == KYBER_PUBLIC_KEY_LEN ==> r.error is Success
            &&& r.error is Success ==> (r.shared_secret matches Some(ss)
                && r.ciphertext matches Some(ct)
                && ss@.len() == KYBER_SHARED_SECRET_LEN
                && ct@.len() == KYBER_CIPHERTEXT_LEN
                && (forall|sk: Seq<u8>| #[trigger] is_kem_keypair(pk@, sk)
                    ==> decap_of(ct@, sk) == ss@))
        },
{
    let public_key = match public_key {
        Some(pk) => pk,
        None => {
            return FFIKyberEncapsulateResult {
                shared_secret: None,
                shared_secret_len: 0,
                ciphertext: None,
                ciphertext_len: 0,
                error: FFIError::InvalidInput,
            };
        },
    };
    if public_key.len() != KYBER_PUBLIC_KEY_LEN {
        return FFIKyberEncapsulateResult {
            shared_secret: None,
            shared_secret_len: 0,
            ciphertext: None,
            ciphertext_len: 0,
            error: FFIError::KeyError,
        };
    }
    let (shared_secret, ciphertext) = kem_encapsulate_bytes(public_key);
    let (shared_secret, shared_secret_len) = create_boxed_slice(shared_secret);
    let (ciphertext, ciphertext_len) = create_boxed_slice(ciphertext);
    FFIKyberEncapsulateResult {
        shared_secret: Some(shared_secret),
        shared_secret_len,
        ciphertext: Some(ciphertext),
        ciphertext_len,
        error: FFIError::Success,
    }
}

/// Decapsulate the shared secret carried by `ciphertext` under
/// `secret_key`. Both handles are required; once they parse, decapsulation
/// never fails — a mismatched pair yields a well-formed but unusable
/// secret, so success is no proof of a matching keypair.
pub fn kyber_decapsulate(
    ciphertext: Option<&Vec<u8>>,
    secret_key: Option<&Vec<u8>>,
) -> (r: FFIDataResult)
    ensures
        r.wf(),
        r.error is InvalidInput <==> (ciphertext is None || secret_key is None),
        ciphertext matches Some(ct) ==> secret_key matches Some(sk) ==> {
            &&& r.error is KeyError <==> (ct@.len() != KYBER_CIPHERTEXT_LEN
                || sk@.len() != KYBER_SECRET_KEY_LEN)
            &&& ct@.len() == KYBER_CIPHERTEXT_LEN && sk@.len() == KYBER_SECRET_KEY_LEN
                ==> r.error is Success
            &&& r.error is Success ==> (r.data matches Some(ss)
                && ss@ == decap_of(ct@, sk@)
                && ss@.len() == KYBER_SHARED_SECRET_LEN)
        },
{
    if ciphertext.is_none() || secret_key.is_none() {
        return FFIDataResult { data: None, len: 0, error: FFIError::InvalidInput };
    }
    let ciphertext = ciphertext.unwrap();
    let secret_key = secret_key.unwrap();
    if ciphertext.len() != KYBER_CIPHERTEXT_LEN || secret_key.len() != KYBER_SECRET_KEY_LEN {
        return FFIDataResult { data: None, len: 0, error: FFIError::KeyError };
    }
    let shared_secret = kem_decapsulate_bytes(ciphertext, secret_key);
    let (data, len) = create_boxed_slice(shared_secret);
    FFIDataResult { data: Some(data), len, error: FFIError::Success }
}

} // verus!
