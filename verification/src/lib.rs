//! A memory-ownership boundary layer over authenticated encryption
//! (XChaCha20Poly1305) and post-quantum key encapsulation (Kyber1024).
//!
//! Every operation takes nullable buffer handles, validates them before any
//! other work, invokes the cryptographic collaborator, and hands freshly
//! owned result buffers back to the caller together with a closed error
//! code. The caller returns each exported buffer exactly once through
//! [`descriptors::free_bytes`].

pub mod aead;
pub mod descriptors;
pub mod kem;
pub mod primitives;
