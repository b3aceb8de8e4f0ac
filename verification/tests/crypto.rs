use shelf::crypto::{decrypt, derive_key, encrypt, CryptoKey};

fn test_key() -> CryptoKey {
    let key_bytes = derive_key("test-password", b"test-salt-16byte");
    CryptoKey::from_bytes(&key_bytes)
}

#[test]
fn test_encrypt_decrypt_roundtrip() {
    let key = test_key();
    let plaintext = b"hello shelf vault";
    let encrypted = encrypt(&key, plaintext).unwrap();
    let decrypted = decrypt(&key, &encrypted).unwrap();
    assert_eq!(decrypted, plaintext);
}

#[test]
fn test_encrypted_differs_from_plaintext() {
    let key = test_key();
    let plaintext = b"secret mnemonic words here";
    let encrypted = encrypt(&key, plaintext).unwrap();
    assert_ne!(encrypted, plaintext.to_vec());
}

#[test]
fn test_decrypt_with_wrong_key_fails() {
    let key1 = test_key();
    let key2_bytes = derive_key("wrong-password", b"test-salt-16byte");
    let key2 = CryptoKey::from_bytes(&key2_bytes);
    let encrypted = encrypt(&key1, b"secret").unwrap();
    assert!(decrypt(&key2, &encrypted).is_err());
}

#[test]
fn test_decrypt_truncated_data_fails() {
    let key = test_key();
    assert!(decrypt(&key, &[0u8; 5]).is_err());
}

#[test]
fn test_derive_key_is_deterministic() {
    let k1 = derive_key("password", b"salt");
    let k2 = derive_key("password", b"salt");
    assert_eq!(k1, k2);
}

#[test]
fn stored_layout_is_nonce_ciphertext_tag() {
    let key = test_key();
    let encrypted = encrypt(&key, b"abc").unwrap();
    assert_eq!(encrypted.len(), 12 + 3 + 16);
    let empty = encrypt(&key, b"").unwrap();
    assert_eq!(empty.len(), 28);
    assert_eq!(decrypt(&key, &empty).unwrap(), Vec::<u8>::new());
}

#[test]
fn fresh_nonce_each_time() {
    let key = test_key();
    let a = encrypt(&key, b"same").unwrap();
    let b = encrypt(&key, b"same").unwrap();
    assert_ne!(a, b);
}

#[test]
fn error_messages() {
    let key = test_key();
    assert_eq!(decrypt(&key, &[0u8; 11]).unwrap_err(), "데이터가 너무 짧음");
    // Twelve bytes of nonce and no tag: AES-GCM rejects it.
    assert_eq!(decrypt(&key, &[0u8; 12]).unwrap_err(), "aead::Error");
    let mut tampered = encrypt(&key, b"secret").unwrap();
    let last = tampered.len() - 1;
    tampered[last] ^= 1;
    assert_eq!(decrypt(&key, &tampered).unwrap_err(), "aead::Error");
}

#[test]
fn derived_keys_depend_on_password_and_salt() {
    let base = derive_key("password", b"salt");
    assert_ne!(base, derive_key("password", b"salt2"));
    assert_ne!(base, derive_key("passwore", b"salt"));
    assert_ne!(base.to_vec(), b"password".to_vec());
    let key = CryptoKey::from_bytes(&base);
    assert_eq!(key.as_bytes(), &base);
}
