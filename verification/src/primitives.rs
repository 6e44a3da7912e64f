//! The outside primitives, and what this crate takes on trust about them.
//!
//! Nothing in this module is proved. Each item names the outside function it
//! stands for and says what is claimed of it.

use aes_gcm::aead::{Aead, KeyInit};
use aes_gcm::{Aes256Gcm, Key, Nonce};
use argon2::Argon2;
use rand::Rng;
use vstd::prelude::*;

verus! {

/// Bytes in an AES-256 key.
pub const KEY_LEN: usize = 32;

/// Bytes in an AES-GCM nonce.
pub const NONCE_LEN: usize = 12;

/// Bytes in the authentication tag that AES-GCM appends to a ciphertext.
pub const TAG_LEN: usize = 16;

/// The shortest salt that Argon2 accepts, in bytes.
pub const MIN_SALT_LEN: usize = 8;

/// The longest password, and the longest salt, that Argon2 accepts, in bytes.
pub const MAX_ARGON2_INPUT_LEN: u64 = 0xFFFF_FFFF;

/// The longest plaintext that AES-GCM seals, in bytes.
pub const MAX_PLAINTEXT_LEN: u64 = 0x10_0000_0000;

/// The error of the `argon2` crate.
#[verifier::external_type_specification]
#[verifier::external_body]
pub struct ExArgon2Error(argon2::Error);

/// The error of the `aead` crate, as `aes-gcm` hands it on.
#[verifier::external_type_specification]
#[verifier::external_body]
pub struct ExAeadError(aes_gcm::Error);

/// What `argon2::Argon2::hash_password_into` writes: the 32 bytes that
/// Argon2id, version 0x13, with the `argon2` crate's default costs (19 MiB of
/// memory, 2 passes, 1 lane) and no secret or associated data, derives from a
/// password and a salt.
pub uninterp spec fn argon2id_key(password: Seq<u8>, salt: Seq<u8>) -> Seq<u8>;

/// What `aead::Aead::encrypt` returns on `Aes256Gcm`: the ciphertext, tag
/// appended, that AES-256-GCM gives for a plaintext under a key and a nonce,
/// with no associated data.
pub uninterp spec fn aes256_gcm_seal(key: Seq<u8>, nonce: Seq<u8>, plaintext: Seq<u8>) -> Seq<u8>;

/// What `aead::Aead::decrypt` returns on `Aes256Gcm`: the plaintext that
/// AES-256-GCM releases for a ciphertext under a key and a nonce, with no
/// associated data; `None` where it releases none.
pub uninterp spec fn aes256_gcm_open(key: Seq<u8>, nonce: Seq<u8>, ciphertext: Seq<u8>) -> Option<
    Seq<u8>,
>;

/// The lengths of password and salt that Argon2 accepts.
pub open spec fn argon2_accepts(password_len: nat, salt_len: nat) -> bool {
    &&& password_len <= MAX_ARGON2_INPUT_LEN
    &&& MIN_SALT_LEN <= salt_len <= MAX_ARGON2_INPUT_LEN
}

/// `argon2::Argon2::hash_password_into`, called on `Argon2::default()` with a
/// buffer of 32 bytes.
///
/// Claimed: the call succeeds exactly on the lengths that `argon2_accepts`
/// describes (the crate checks them in `verify_inputs`; with 32 bytes of
/// output and the default costs no other check can fail), and on success the
/// buffer holds the Argon2id output for this password and salt.
#[verifier::external_body]
pub(crate) fn argon2id_into(password: &[u8], salt: &[u8], out: &mut [u8; 32]) -> (r: Result<
    (),
    argon2::Error,
>)
    ensures
        r is Ok <==> argon2_accepts(password@.len(), salt@.len()),
        r is Ok ==> final(out)@ == argon2id_key(password@, salt@),
{
    Argon2::default().hash_password_into(password, salt, out)
}

/// `rand::Rng::gen` on `rand::thread_rng()`, for twelve bytes.
///
/// Nothing is claimed of the bytes: two calls may give any two values. The
/// generator seeds itself from the operating system on its first use in a
/// thread and panics if the system has no entropy to give; no argument of
/// this crate's functions decides that.
#[verifier::external_body]
pub(crate) fn random_nonce() -> [u8; 12] {
    rand::thread_rng().gen()
}

/// `aead::Aead::encrypt` on an `Aes256Gcm` made from the key with
/// `KeyInit::new`.
///
/// Key and nonce must have their exact lengths, since `GenericArray::from_slice`
/// panics on any other. Claimed: the call fails exactly when the plaintext is
/// longer than the crate's `P_MAX`; on success the result is the AES-256-GCM
/// ciphertext, it is longer than the plaintext by the tag, and opening it under
/// the same key and nonce releases the plaintext.
#[verifier::external_body]
pub(crate) fn aes256_gcm_encrypt(key: &[u8], nonce: &[u8], plaintext: &[u8]) -> (r: Result<
    Vec<u8>,
    aes_gcm::Error,
>)
    requires
        key@.len() == KEY_LEN,
        nonce@.len() == NONCE_LEN,
    ensures
        r is Ok <==> plaintext@.len() <= MAX_PLAINTEXT_LEN,
        r matches Ok(ciphertext) ==> {
            &&& ciphertext@ == aes256_gcm_seal(key@, nonce@, plaintext@)
            &&& ciphertext@.len() == plaintext@.len() + TAG_LEN
            &&& aes256_gcm_open(key@, nonce@, ciphertext@) == Some(plaintext@)
        },
{
    let cipher = Aes256Gcm::new(Key::<Aes256Gcm>::from_slice(key));
    cipher.encrypt(Nonce::from_slice(nonce), plaintext)
}

/// `aead::Aead::decrypt` on an `Aes256Gcm` made from the key with
/// `KeyInit::new`.
///
/// Key and nonce must have their exact lengths, as for encryption. Claimed:
/// the call succeeds exactly when AES-256-GCM releases a plaintext, and then
/// returns it; a released plaintext is shorter than the ciphertext by the tag,
/// so that a ciphertext with no room for a tag is always refused.
#[verifier::external_body]
pub(crate) fn aes256_gcm_decrypt(key: &[u8], nonce: &[u8], ciphertext: &[u8]) -> (r: Result<
    Vec<u8>,
    aes_gcm::Error,
>)
    requires
        key@.len() == KEY_LEN,
        nonce@.len() == NONCE_LEN,
    ensures
        match r {
            Ok(plaintext) => aes256_gcm_open(key@, nonce@, ciphertext@) == Some(plaintext@),
            Err(_) => aes256_gcm_open(key@, nonce@, ciphertext@) is None,
        },
        r matches Ok(plaintext) ==> plaintext@.len() + TAG_LEN == ciphertext@.len(),
{
    let cipher = Aes256Gcm::new(Key::<Aes256Gcm>::from_slice(key));
    cipher.decrypt(Nonce::from_slice(nonce), ciphertext)
}

} // verus!
