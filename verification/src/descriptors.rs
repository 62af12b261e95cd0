//! Result descriptors, the error taxonomy, and the buffer export/release
//! protocol.
//!
//! A buffer crossing the boundary is modelled as `Option<Vec<u8>>`: `None`
//! stands for a null handle, `Some` for a present buffer (which may be
//! empty). Every operation returns a descriptor whose buffer fields are
//! `None` with length zero exactly when the error code is not `Success`,
//! so a caller can branch on the error code alone.

use vstd::prelude::*;

verus! {

/// Closed error taxonomy surfaced on every result descriptor in place of
/// exceptions at the boundary.
#[derive(Clone, Copy, Debug, PartialEq, Eq, Structural)]
pub enum FFIError {
    /// The operation completed; the descriptor's buffers are owned by the
    /// caller now.
    Success,
    /// A required buffer handle was null; rejected before any allocation.
    InvalidInput,
    /// The seal operation's underlying primitive reported failure.
    EncryptionError,
    /// Authentication or decryption failed; deliberately the same code for
    /// a wrong key, a wrong nonce, tampered ciphertext and altered
    /// associated data.
    DecryptionError,
    /// A byte buffer failed to parse into the domain value it was meant to
    /// represent (wrong length); used for keys, nonces and ciphertext
    /// containers uniformly.
    KeyError,
    /// An allocation failed while exporting results.
    MemoryError,
}

/// Result descriptor for key and nonce generation.
pub struct FFIKeyResult {
    pub data: Option<Vec<u8>>,
    pub len: usize,
    pub error: FFIError,
}

/// Result descriptor for seal, open and decapsulate operations.
pub struct FFIDataResult {
    pub data: Option<Vec<u8>>,
    pub len: usize,
    pub error: FFIError,
}

/// Result descriptor for key-encapsulation keypair generation.
pub struct FFIKyberKeyPair {
    pub public_key: Option<Vec<u8>>,
    pub public_key_len: usize,
    pub secret_key: Option<Vec<u8>>,
    pub secret_key_len: usize,
    pub error: FFIError,
}

/// Result descriptor for encapsulation.
pub struct FFIKyberEncapsulateResult {
    pub shared_secret: Option<Vec<u8>>,
    pub shared_secret_len: usize,
    pub ciphertext: Option<Vec<u8>>,
    pub ciphertext_len: usize,
    pub error: FFIError,
}

impl FFIKeyResult {
    /// A buffer is present with its exact length on success, and null with
    /// length zero on every error.
    pub open spec fn wf(self) -> bool {
        match self.data {
            Some(d) => self.error is Success && self.len == d@.len(),
            None => !(self.error is Success) && self.len == 0,
        }
    }
}

impl FFIDataResult {
    /// A buffer is present with its exact length on success, and null with
    /// length zero on every error.
    pub open spec fn wf(self) -> bool {
        match self.data {
            Some(d) => self.error is Success && self.len == d@.len(),
            None => !(self.error is Success) && self.len == 0,
        }
    }
}

impl FFIKyberKeyPair {
    /// Both buffers are present with their exact lengths on success, and
    /// null with length zero on every error.
    pub open spec fn wf(self) -> bool {
        if self.error is Success {
            &&& self.public_key matches Some(pk) && self.public_key_len == pk@.len()
            &&& self.secret_key matches Some(sk) && self.secret_key_len == sk@.len()
        } else {
            &&& self.public_key is None
            &&& self.public_key_len == 0
            &&& self.secret_key is None
            &&& self.secret_key_len == 0
        }
    }
}

impl FFIKyberEncapsulateResult {
    /// Both buffers are present with their exact lengths on success, and
    /// null with length zero on every error.
    pub open spec fn wf(self) -> bool {
        if self.error is Success {
            &&& self.shared_secret matches Some(ss) && self.shared_secret_len == ss@.len()
            &&& self.ciphertext matches Some(ct) && self.ciphertext_len == ct@.len()
        } else {
            &&& self.shared_secret is None
            &&& self.shared_secret_len == 0
            &&& self.ciphertext is None
            &&& self.ciphertext_len == 0
        }
    }
}

/// Export step of the buffer bridge: turn an owned byte sequence produced
/// by a primitive operation into the exact buffer-and-length pair that a
/// descriptor reports to the caller, without padding or metadata.
pub fn create_boxed_slice(data: Vec<u8>) -> (r: (Vec<u8>, usize))
    ensures
        r.0@ == data@,
        r.1 == data@.len(),
{
    let len = data.len();
    (data, len)
}

/// Release endpoint: take back ownership of a buffer previously exported in
/// a success descriptor and release it. A null handle is a safe no-op.
/// Passing the same buffer twice is impossible here by ownership; at a raw
/// boundary it is a caller contract violation.
pub fn free_bytes(data: Option<Vec<u8>>, _len: usize) {
    let _owned = data;
}

} // verus!
