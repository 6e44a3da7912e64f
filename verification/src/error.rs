//! The errors that the operations of this crate report.

use vstd::prelude::*;

verus! {

/// Why an operation gave no result.
#[derive(Clone, Copy, Debug, PartialEq, Eq, Structural)]
pub enum CryptoError {
    /// The key derivation function refused the password or the salt.
    KeyDerivation,
    /// The cipher refused the key, the nonce or the plaintext for their length.
    Encryption,
    /// The authentication tag did not match: the ciphertext was altered, or
    /// the key or the nonce is not the one it was sealed with.
    Authentication,
    /// The ciphertext is too short to hold an authentication tag.
    MalformedInput,
}

} // verus!
