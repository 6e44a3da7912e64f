//! Password-based encryption of byte buffers.
//!
//! A key is derived from a password and a salt with Argon2id, and buffers are
//! sealed and opened under that key with AES-256-GCM. The two primitives come
//! from the `argon2` and `aes-gcm` crates; what this crate adds, and proves, is
//! the handling around them: which inputs are accepted, which error each
//! rejected input gets, and that what `encrypt` returns is what `decrypt`
//! accepts.

pub mod crypto;
pub mod error;
pub mod primitives;

pub use crate::crypto::{decrypt, derive_key, encrypt, encrypt_with_nonce};
pub use crate::error::CryptoError;
