//! Trusted bridge to the `ever_crypto` collaborator.
//!
//! Each wrapper makes exactly one primitive operation available on plain
//! byte values; its contract states only what the collaborator's source
//! shows. Results that are functions of the arguments alone are given
//! uninterpreted names (`seal_of`, `open_of`, `decap_of`), so that the
//! adapters' own contracts can be exact without restating the
//! cryptography.

use vstd::prelude::*;

verus! {

/// Length in bytes of an XChaCha20Poly1305 key.
pub const XCHACHA_KEY_LEN: usize = 32;

/// Length in bytes of an XChaCha20Poly1305 nonce.
pub const XCHACHA_NONCE_LEN: usize = 24;

/// Length in bytes of the authentication tag appended to every ciphertext
/// produced by the seal operation.
pub const AEAD_TAG_LEN: usize = 16;

/// Length in bytes of a Kyber1024 public key.
pub const KYBER_PUBLIC_KEY_LEN: usize = 1568;

/// Length in bytes of a Kyber1024 secret key.
pub const KYBER_SECRET_KEY_LEN: usize = 3168;

/// Length in bytes of a Kyber1024 ciphertext.
pub const KYBER_CIPHERTEXT_LEN: usize = 1568;

/// Length in bytes of a Kyber1024 shared secret.
pub const KYBER_SHARED_SECRET_LEN: usize = 32;

/// The ciphertext that sealing `plaintext` under `key` and `nonce` with
/// associated data `aad` produces. Sealing is deterministic in these four
/// arguments, so the result can be named.
pub uninterp spec fn seal_of(key: Seq<u8>, nonce: Seq<u8>, plaintext: Seq<u8>, aad: Seq<u8>) -> Seq<u8>;

/// The outcome of opening `ciphertext` under `key` and `nonce` with
/// associated data `aad`: the recovered plaintext, or `None` when
/// authentication fails for any reason.
pub uninterp spec fn open_of(key: Seq<u8>, nonce: Seq<u8>, ciphertext: Seq<u8>, aad: Seq<u8>) -> Option<Seq<u8>>;

/// Holds exactly of the (public key, secret key) byte pairs that Kyber1024
/// keypair generation can produce together.
pub uninterp spec fn is_kem_keypair(public_key: Seq<u8>, secret_key: Seq<u8>) -> bool;

/// The shared secret that decapsulating `ciphertext` under `secret_key`
/// yields. Decapsulation is deterministic in these two arguments and never
/// fails: a mismatched pair yields a well-formed but unusable secret.
pub uninterp spec fn decap_of(ciphertext: Seq<u8>, secret_key: Seq<u8>) -> Seq<u8>;

/// The associated-data bytes the primitive authenticates: an absent handle
/// is handed to the collaborator as the empty byte string
/// (`ever_crypto` substitutes `&[]` for `None`).
pub open spec fn aad_view(aad: Option<&Vec<u8>>) -> Seq<u8> {
    match aad {
        Some(a) => a@,
        None => Seq::empty(),
    }
}

/// Largest plaintext the seal operation can process: the ChaCha20 block
/// counter spends block 0 on the Poly1305 key, leaving `u32::MAX - 1`
/// 64-byte keystream blocks for the payload.
pub const SEAL_MAX_PLAINTEXT_LEN: u64 = 0xffff_fffe * 64;

/// Largest ciphertext the open operation can process: the largest sealable
/// plaintext plus the authentication tag.
pub const OPEN_MAX_CIPHERTEXT_LEN: u64 = 0xffff_fffe * 64 + 16;

/// The plaintext stays within the seal operation's keystream limit.
pub open spec fn seal_within_limit(plaintext_len: nat) -> bool {
    plaintext_len <= SEAL_MAX_PLAINTEXT_LEN
}

/// The ciphertext stays within the open operation's keystream limit.
pub open spec fn open_within_limit(ciphertext_len: nat) -> bool {
    ciphertext_len <= OPEN_MAX_CIPHERTEXT_LEN
}

/// Relies on `ever_crypto::XChaChaKey::generate`: a fresh random 32-byte
/// key. The bytes are random, so only the length is stated.
#[verifier::external_body]
pub(crate) fn generate_key_bytes() -> (r: Vec<u8>)
    ensures
        r@.len() == XCHACHA_KEY_LEN,
{
    ever_crypto::XChaChaKey::generate().as_bytes().to_vec()
}

/// Relies on `ever_crypto::XChaChaNonce::generate`: a fresh random 24-byte
/// nonce. The bytes are random, so only the length is stated.
#[verifier::external_body]
pub(crate) fn generate_nonce_bytes() -> (r: Vec<u8>)
    ensures
        r@.len() == XCHACHA_NONCE_LEN,
{
    ever_crypto::XChaChaNonce::generate().as_bytes().to_vec()
}

/// Relies on `ever_crypto::XChaChaCrypto::encrypt`, with the arguments
/// converted through `XChaChaKey::from_bytes` and `XChaChaNonce::from_bytes`
/// (infallible at the required lengths): the ciphertext is the plaintext's
/// length plus the 16-byte tag, is a function of the four inputs, and opens
/// back to the plaintext under the same key, nonce and associated data.
/// Within the keystream limit — which the `requires` demands, since the
/// cipher does not return beyond it — encryption always succeeds.
#[verifier::external_body]
pub(crate) fn seal_bytes(key: &Vec<u8>, nonce: &Vec<u8>, plaintext: &Vec<u8>, aad: Option<&Vec<u8>>) -> (r: Option<Vec<u8>>)
    requires
        key@.len() == XCHACHA_KEY_LEN,
        nonce@.len() == XCHACHA_NONCE_LEN,
        seal_within_limit(plaintext@.len()),
    ensures
        r matches Some(c) ==> c@ == seal_of(key@, nonce@, plaintext@, aad_view(aad))
            && c@.len() == plaintext@.len() + AEAD_TAG_LEN
            && open_of(key@, nonce@, c@, aad_view(aad)) == Some(plaintext@),
        r is Some,
{
    let k = ever_crypto::XChaChaKey::from_bytes(key.as_slice()).ok()?;
    let n = ever_crypto::XChaChaNonce::from_bytes(nonce.as_slice()).ok()?;
    ever_crypto::XChaChaCrypto::encrypt(&k, &n, plaintext.as_slice(), aad.map(|a| a.as_slice())).ok()
}

/// Relies on `ever_crypto::XChaChaCrypto::decrypt`, with the arguments
/// converted through `XChaChaKey::from_bytes` and `XChaChaNonce::from_bytes`
/// (infallible at the required lengths): the outcome is exactly `open_of`,
/// the recovered plaintext — shorter than the ciphertext by exactly the
/// tag — or an authentication failure. The `requires` keeps the ciphertext
/// within the keystream limit, beyond which the cipher does not return.
#[verifier::external_body]
pub(crate) fn open_bytes(key: &Vec<u8>, nonce: &Vec<u8>, ciphertext: &Vec<u8>, aad: Option<&Vec<u8>>) -> (r: Option<Vec<u8>>)
    requires
        key@.len() == XCHACHA_KEY_LEN,
        nonce@.len() == XCHACHA_NONCE_LEN,
        open_within_limit(ciphertext@.len()),
    ensures
        match r {
            Some(p) => open_of(key@, nonce@, ciphertext@, aad_view(aad)) == Some(p@)
                && ciphertext@.len() == p@.len() + AEAD_TAG_LEN,
            None => open_of(key@, nonce@, ciphertext@, aad_view(aad)) is None,
        },
{
    let k = ever_crypto::XChaChaKey::from_bytes(key.as_slice()).ok()?;
    let n = ever_crypto::XChaChaNonce::from_bytes(nonce.as_slice()).ok()?;
    ever_crypto::XChaChaCrypto::decrypt(&k, &n, ciphertext.as_slice(), aad.map(|a| a.as_slice())).ok()
}

/// Relies on `ever_crypto::KyberCrypto::generate_keypair`: a fresh random
/// Kyber1024 keypair, 1568 public-key bytes and 3168 secret-key bytes that
/// belong together.
#[verifier::external_body]
pub(crate) fn kem_generate_keypair_bytes() -> (r: (Vec<u8>, Vec<u8>))
    ensures
        r.0@.len() == KYBER_PUBLIC_KEY_LEN,
        r.1@.len() == KYBER_SECRET_KEY_LEN,
        is_kem_keypair(r.0@, r.1@),
{
    let kp = ever_crypto::KyberCrypto::generate_keypair();
    (kp.public_key.as_bytes().to_vec(), kp.secret_key.as_bytes().to_vec())
}

/// Relies on `ever_crypto::KyberCrypto::encapsulate`, with the argument
/// converted through `KyberPublicKey::from_bytes` (infallible at the
/// required length): a randomized (shared secret, ciphertext) pair; the
/// ciphertext decapsulates to this shared secret under any secret key that
/// forms a keypair with `public_key`.
#[verifier::external_body]
pub(crate) fn kem_encapsulate_bytes(public_key: &Vec<u8>) -> (r: (Vec<u8>, Vec<u8>))
    requires
        public_key@.len() == KYBER_PUBLIC_KEY_LEN,
    ensures
        r.0@.len() == KYBER_SHARED_SECRET_LEN,
        r.1@.len() == KYBER_CIPHERTEXT_LEN,
        forall|sk: Seq<u8>| #[trigger] is_kem_keypair(public_key@, sk) ==> decap_of(r.1@, sk) == r.0@,
{
    let pk = ever_crypto::KyberPublicKey::from_bytes(public_key.as_slice()).unwrap();
    let (ss, ct) = ever_crypto::KyberCrypto::encapsulate(&pk);
    (ss.as_bytes().to_vec(), ct.as_bytes().to_vec())
}

/// Relies on `ever_crypto::KyberCrypto::decapsulate`, with the arguments
/// converted through `KyberCiphertext::from_bytes` and
/// `KyberSecretKey::from_bytes` (infallible at the required lengths): the
/// 32-byte shared secret `decap_of(ciphertext, secret_key)`, never a
/// failure.
#[verifier::external_body]
pub(crate) fn kem_decapsulate_bytes(ciphertext: &Vec<u8>, secret_key: &Vec<u8>) -> (r: Vec<u8>)
    requires
        ciphertext@.len() == KYBER_CIPHERTEXT_LEN,
        secret_key@.len() == KYBER_SECRET_KEY_LEN,
    ensures
        r@ == decap_of(ciphertext@, secret_key@),
        r@.len() == KYBER_SHARED_SECRET_LEN,
{
    let ct = ever_crypto::kyber::KyberCiphertext::from_bytes(ciphertext.as_slice()).unwrap();
    let sk = ever_crypto::KyberSecretKey::from_bytes(secret_key.as_slice()).unwrap();
    ever_crypto::KyberCrypto::decapsulate(&ct, &sk).as_bytes().to_vec()
}

} // verus!
