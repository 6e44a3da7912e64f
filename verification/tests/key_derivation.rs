use pwcrypt::crypto::derivation_result;
use pwcrypt::{decrypt, derive_key, encrypt, encrypt_with_nonce, CryptoError};

const STAPLE_KEY: [u8; 32] = [
    0xbc, 0xaf, 0x6f, 0xd0, 0xe5, 0xaa, 0xa3, 0x1b, 0x27, 0x22, 0x40, 0xc3, 0x80, 0x67, 0x65, 0x33,
    0x13, 0xe9, 0xf7, 0x80, 0x2f, 0xc2, 0x26, 0xcc, 0xf8, 0x41, 0x6c, 0xf7, 0xbc, 0xf9, 0xe6, 0x44,
];

#[test]
fn derives_the_argon2id_vector_for_a_zero_salt() {
    let key = derive_key("correct horse battery staple", &[0u8; 16]);
    assert_eq!(key, Ok(STAPLE_KEY));
}

#[test]
fn derived_key_seals_and_opens_hello_world() {
    let key = derive_key("correct horse battery staple", &[0u8; 16]).unwrap();
    let (ciphertext, nonce) = encrypt(&key, b"hello world").unwrap();
    assert_eq!(nonce.len(), 12);
    assert_eq!(ciphertext.len(), 11 + 16);
    assert_eq!(decrypt(&key, &ciphertext, &nonce), Ok(b"hello world".to_vec()));
}

#[test]
fn derived_key_gives_the_aes_gcm_vector_under_a_fixed_nonce() {
    let key = derive_key("correct horse battery staple", &[0u8; 16]).unwrap();
    let nonce: Vec<u8> = (0u8..12).collect();
    let expected: Vec<u8> = vec![
        0x16, 0x3e, 0x9a, 0xaf, 0x7a, 0x60, 0x1b, 0x7e, 0xe2, 0x2b, 0xf1, 0xa5, 0xcb, 0xb2, 0xac,
        0x46, 0x86, 0x67, 0xe7, 0x72, 0xee, 0xf5, 0x45, 0x93, 0x75, 0x90, 0x6e,
    ];
    assert_eq!(encrypt_with_nonce(&key, b"hello world", &nonce), Ok(expected));
}

#[test]
fn derivation_is_deterministic() {
    let salt = [7u8; 16];
    let first = derive_key("a password", &salt);
    let second = derive_key("a password", &salt);
    assert!(first.is_ok());
    assert_eq!(first, second);
}

#[test]
fn another_salt_gives_another_key() {
    let first = derive_key("a password", &[1u8; 16]).unwrap();
    let second = derive_key("a password", &[2u8; 16]).unwrap();
    assert_ne!(first, second);
}

#[test]
fn another_password_gives_another_key() {
    let first = derive_key("a password", &[1u8; 16]).unwrap();
    let second = derive_key("b password", &[1u8; 16]).unwrap();
    assert_ne!(first, second);
}

#[test]
fn empty_password_is_accepted() {
    let expected: [u8; 32] = [
        0xfd, 0xea, 0xb3, 0x5b, 0x00, 0x10, 0x10, 0x13, 0x6c, 0x1a, 0x06, 0x7a, 0xcc, 0x55, 0x82,
        0xfd, 0x9e, 0xc8, 0x0f, 0x80, 0xb1, 0x57, 0x66, 0xf1, 0xc9, 0x54, 0xa3, 0x69, 0xfc, 0x10,
        0xd1, 0xa0,
    ];
    assert_eq!(derive_key("", &[0u8; 8]), Ok(expected));
}

#[test]
fn password_is_hashed_as_its_utf8_bytes() {
    let salt: Vec<u8> = (0u8..16).collect();
    let expected: [u8; 32] = [
        0x78, 0x2a, 0xdf, 0x7c, 0x1d, 0xb7, 0xdd, 0xd8, 0x22, 0xb9, 0x71, 0x35, 0x8a, 0xeb, 0x5a,
        0x89, 0x93, 0xf7, 0xe5, 0xc7, 0xc3, 0xef, 0xcc, 0x23, 0xfb, 0x15, 0xa8, 0x7e, 0x66, 0xee,
        0xc7, 0xfb,
    ];
    assert_eq!(derive_key("p\u{e4}ssw\u{f6}rd", &salt), Ok(expected));
}

#[test]
fn salt_of_seven_bytes_is_refused() {
    assert_eq!(derive_key("a password", &[0u8; 7]), Err(CryptoError::KeyDerivation));
}

#[test]
fn empty_salt_is_refused() {
    assert_eq!(derive_key("a password", &[]), Err(CryptoError::KeyDerivation));
}

#[test]
fn salt_of_eight_bytes_is_accepted() {
    assert!(derive_key("a password", &[0u8; 8]).is_ok());
}

#[test]
fn derivation_result_keeps_the_buffer_on_success() {
    assert_eq!(derivation_result(Ok(()), [9u8; 32]), Ok([9u8; 32]));
}

#[test]
fn derivation_result_maps_every_failure_to_key_derivation() {
    assert_eq!(
        derivation_result(Err(argon2::Error::SaltTooShort), [9u8; 32]),
        Err(CryptoError::KeyDerivation)
    );
    assert_eq!(
        derivation_result(Err(argon2::Error::PwdTooLong), [0u8; 32]),
        Err(CryptoError::KeyDerivation)
    );
}
