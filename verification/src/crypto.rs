//! Key derivation, encryption and decryption.
//!
//! Each operation hands its bytes to an outside primitive and decides, around
//! that call, which inputs are accepted and which error a rejected input gets.
//! The contracts speak of the primitives by the names that `primitives` gives
//! to their results.

use crate::error::CryptoError;
use crate::primitives::{
    aes256_gcm_decrypt, aes256_gcm_encrypt, aes256_gcm_open, aes256_gcm_seal, argon2_accepts,
    argon2id_into, argon2id_key, random_nonce, KEY_LEN, MAX_PLAINTEXT_LEN, NONCE_LEN, TAG_LEN,
};
use vstd::prelude::*;
use vstd::slice::slice_to_vec;
use vstd::string::StringSliceAdditionalSpecFns;

verus! {

/// A result with its bytes taken as a sequence.
pub open spec fn viewed<T: View>(r: Result<T, CryptoError>) -> Result<T::V, CryptoError> {
    match r {
        Ok(value) => Ok(value@),
        Err(e) => Err(e),
    }
}

/// What `derive_key` answers for the bytes of a password and a salt.
pub open spec fn derive_key_spec(password: Seq<u8>, salt: Seq<u8>) -> Result<Seq<u8>, CryptoError> {
    if argon2_accepts(password.len(), salt.len()) {
        Ok(argon2id_key(password, salt))
    } else {
        Err(CryptoError::KeyDerivation)
    }
}

/// The key and plaintext lengths that `encrypt` accepts.
pub open spec fn encrypt_accepts(key: Seq<u8>, plaintext: Seq<u8>) -> bool {
    key.len() == KEY_LEN && plaintext.len() <= MAX_PLAINTEXT_LEN
}

/// `ciphertext` is what the cipher makes of `plaintext` under `key` and
/// `nonce`: the sealed bytes, one tag longer than the plaintext, which the
/// cipher opens again to the plaintext.
pub open spec fn is_sealing(
    key: Seq<u8>,
    nonce: Seq<u8>,
    plaintext: Seq<u8>,
    ciphertext: Seq<u8>,
) -> bool {
    &&& nonce.len() == NONCE_LEN
    &&& ciphertext == aes256_gcm_seal(key, nonce, plaintext)
    &&& ciphertext.len() == plaintext.len() + TAG_LEN
    &&& aes256_gcm_open(key, nonce, ciphertext) == Some(plaintext)
}

/// What `decrypt` makes of the cipher's answer for a ciphertext of the given
/// length: a ciphertext with no room for a tag is malformed whatever the
/// cipher said, and a plaintext is released only where the cipher released it.
pub open spec fn opening_spec(ciphertext_len: nat, opened: Option<Seq<u8>>) -> Result<
    Seq<u8>,
    CryptoError,
> {
    if ciphertext_len < TAG_LEN {
        Err(CryptoError::MalformedInput)
    } else {
        match opened {
            Some(plaintext) => Ok(plaintext),
            None => Err(CryptoError::Authentication),
        }
    }
}

/// What `decrypt` answers.
pub open spec fn decrypt_spec(key: Seq<u8>, ciphertext: Seq<u8>, nonce: Seq<u8>) -> Result<
    Seq<u8>,
    CryptoError,
> {
    if key.len() != KEY_LEN || nonce.len() != NONCE_LEN {
        Err(CryptoError::Encryption)
    } else {
        opening_spec(ciphertext.len(), aes256_gcm_open(key, nonce, ciphertext))
    }
}

/// The answer of `derive_key`, from what the derivation function reported and
/// the buffer it wrote to: the buffer is the key where it succeeded.
pub fn derivation_result(outcome: Result<(), argon2::Error>, key: [u8; 32]) -> (r: Result<
    [u8; 32],
    CryptoError,
>)
    ensures
        r == match outcome {
            Ok(_) => Ok::<[u8; 32], CryptoError>(key),
            Err(_) => Err(CryptoError::KeyDerivation),
        },
{
    match outcome {
        Ok(_) => Ok(key),
        Err(_) => Err(CryptoError::KeyDerivation),
    }
}

/// Derives a 32-byte key from a password and a salt with Argon2id.
///
/// The password is hashed as its UTF-8 bytes and may be empty. A salt of fewer
/// than 8 bytes, and a password or salt too long for Argon2, is refused with
/// `KeyDerivation`. The same password and salt always give the same key.
pub fn derive_key(password: &str, salt: &[u8]) -> (r: Result<[u8; 32], CryptoError>)
    ensures
        viewed(r) == derive_key_spec(password.spec_bytes(), salt@),
{
    let mut key = [0u8; 32];
    let outcome = argon2id_into(password.as_bytes(), salt, &mut key);
    derivation_result(outcome, key)
}

/// The answer of `encrypt_with_nonce`, from what the cipher reported.
pub fn sealing_result(outcome: Result<Vec<u8>, aes_gcm::Error>) -> (r: Result<Vec<u8>, CryptoError>)
    ensures
        r == match outcome {
            Ok(ciphertext) => Ok::<Vec<u8>, CryptoError>(ciphertext),
            Err(_) => Err(CryptoError::Encryption),
        },
{
    match outcome {
        Ok(ciphertext) => Ok(ciphertext),
        Err(_) => Err(CryptoError::Encryption),
    }
}

/// Seals a plaintext under a key and a nonce that the caller chose.
///
/// A nonce must never serve twice under one key; `encrypt` draws a fresh one
/// for every call and is the function to use unless the nonce has to be fixed.
/// A key that has not 32 bytes, a nonce that has not 12, and a plaintext too
/// long for the cipher, is refused with `Encryption`.
pub fn encrypt_with_nonce(key: &[u8], plaintext: &[u8], nonce: &[u8]) -> (r: Result<
    Vec<u8>,
    CryptoError,
>)
    ensures
        r is Ok <==> encrypt_accepts(key@, plaintext@) && nonce@.len() == NONCE_LEN,
        r matches Ok(ciphertext) ==> is_sealing(key@, nonce@, plaintext@, ciphertext@),
        r matches Err(e) ==> e == CryptoError::Encryption,
{
    if key.len() != KEY_LEN || nonce.len() != NONCE_LEN {
        return Err(CryptoError::Encryption);
    }
    sealing_result(aes256_gcm_encrypt(key, nonce, plaintext))
}

/// Seals a plaintext under a key, with a nonce drawn at random for this call.
///
/// Returns the ciphertext, which ends in the authentication tag, and the
/// nonce, which is no secret and which `decrypt` needs again. A key that has
/// not 32 bytes, and a plaintext too long for the cipher, is refused with
/// `Encryption`. What is returned, `decrypt` opens to the plaintext.
pub fn encrypt(key: &[u8], plaintext: &[u8]) -> (r: Result<(Vec<u8>, Vec<u8>), CryptoError>)
    ensures
        r is Ok <==> encrypt_accepts(key@, plaintext@),
        r matches Ok((ciphertext, nonce)) ==> is_sealing(key@, nonce@, plaintext@, ciphertext@),
        r matches Ok((ciphertext, nonce)) ==> decrypt_spec(key@, ciphertext@, nonce@) == Ok::<
            Seq<u8>,
            CryptoError,
        >(plaintext@),
        r matches Err(e) ==> e == CryptoError::Encryption,
{
    let nonce = random_nonce();
    match encrypt_with_nonce(key, plaintext, nonce.as_slice()) {
        Ok(ciphertext) => {
            proof {
                lemma_decrypt_inverts_encrypt(key@, plaintext@, ciphertext@, nonce@);
            }
            Ok((ciphertext, slice_to_vec(nonce.as_slice())))
        },
        Err(e) => Err(e),
    }
}

/// The answer of `decrypt` for a key and a nonce of the right lengths, from
/// the length of the ciphertext and what the cipher reported.
pub fn opening_result(ciphertext_len: usize, outcome: Result<Vec<u8>, aes_gcm::Error>) -> (r:
    Result<Vec<u8>, CryptoError>)
    ensures
        viewed(r) == opening_spec(
            ciphertext_len as nat,
            match outcome {
                Ok(plaintext) => Some(plaintext@),
                Err(_) => None,
            },
        ),
{
    if ciphertext_len < TAG_LEN {
        return Err(CryptoError::MalformedInput);
    }
    match outcome {
        Ok(plaintext) => Ok(plaintext),
        Err(_) => Err(CryptoError::Authentication),
    }
}

/// Opens a ciphertext under the key and the nonce it was sealed with.
///
/// A key that has not 32 bytes, and a nonce that has not 12, is refused with
/// `Encryption`; a ciphertext with no room for the tag with `MalformedInput`;
/// and one whose tag does not match key, nonce and ciphertext with
/// `Authentication`. A plaintext is released only where the cipher found the
/// tag to match, and never in part.
pub fn decrypt(key: &[u8], ciphertext: &[u8], nonce: &[u8]) -> (r: Result<Vec<u8>, CryptoError>)
    ensures
        viewed(r) == decrypt_spec(key@, ciphertext@, nonce@),
        r matches Ok(plaintext) ==> plaintext@.len() + TAG_LEN == ciphertext@.len(),
{
    if key.len() != KEY_LEN || nonce.len() != NONCE_LEN {
        return Err(CryptoError::Encryption);
    }
    opening_result(ciphertext.len(), aes256_gcm_decrypt(key, nonce, ciphertext))
}

/// Decryption inverts encryption: whatever ciphertext and nonce `encrypt`
/// returns for a plaintext under a key of 32 bytes, `decrypt` under the same
/// key, on that ciphertext and nonce, returns the plaintext. The same holds of
/// what `encrypt_with_nonce` returns under the nonce it was given.
pub proof fn lemma_decrypt_inverts_encrypt(
    key: Seq<u8>,
    plaintext: Seq<u8>,
    ciphertext: Seq<u8>,
    nonce: Seq<u8>,
)
    requires
        key.len() == KEY_LEN,
        is_sealing(key, nonce, plaintext, ciphertext),
    ensures
        decrypt_spec(key, ciphertext, nonce) == Ok::<Seq<u8>, CryptoError>(plaintext),
{
}

/// Key derivation is deterministic: two answers of `derive_key` for one
/// password and one salt are the same answer.
pub proof fn lemma_derive_key_deterministic(
    password: Seq<u8>,
    salt: Seq<u8>,
    first: Result<[u8; 32], CryptoError>,
    second: Result<[u8; 32], CryptoError>,
)
    requires
        viewed(first) == derive_key_spec(password, salt),
        viewed(second) == derive_key_spec(password, salt),
    ensures
        first == second,
{
    if let Ok(a) = first {
        let b = second->Ok_0;
        assert(a@ == b@);
        assert(a =~= b);
    }
}

/// With a key and a nonce of the right lengths and a ciphertext that has room
/// for a tag, `decrypt` answers as the cipher does: it returns the plaintext
/// that the cipher releases, and `Authentication` where the cipher releases
/// none. An altered ciphertext, an altered nonce and another key of the same
/// length all fall under this.
pub proof fn lemma_rejection_is_authentication(key: Seq<u8>, ciphertext: Seq<u8>, nonce: Seq<u8>)
    requires
        key.len() == KEY_LEN,
        nonce.len() == NONCE_LEN,
        ciphertext.len() >= TAG_LEN,
    ensures
        decrypt_spec(key, ciphertext, nonce) == match aes256_gcm_open(key, nonce, ciphertext) {
            Some(plaintext) => Ok::<Seq<u8>, CryptoError>(plaintext),
            None => Err(CryptoError::Authentication),
        },
{
}

} // verus!
