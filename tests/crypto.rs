use aes_gcm::aead::{Aead, KeyInit};
use base64::Engine;
use rust_dashboard::crypto::{
    decrypt, decrypt_string, derive_key_from_password, encrypt, encrypt_string, encrypt_with_nonce,
    CryptoError, CryptoTemplate, DecryptForm, EncryptForm, KEY_LEN, NONCE_LEN, TAG_LEN,
};
use rust_dashboard::audit::AuditAction;
use std::hash::{Hash, Hasher};

fn b64(bytes: &[u8]) -> String {
    base64::engine::general_purpose::STANDARD.encode(bytes)
}

fn unb64(text: &str) -> Vec<u8> {
    base64::engine::general_purpose::STANDARD.decode(text).unwrap()
}

#[test]
fn encrypt_then_decrypt_round_trip() {
    let token = encrypt_string("secret message", "hunter2").unwrap();
    assert_eq!(decrypt_string(&token, "hunter2").unwrap(), "secret message");
}

#[test]
fn encrypt_round_trip_of_empty_and_non_ascii_text() {
    let token = encrypt_with_nonce("", "pw", &[9u8; 12]).unwrap();
    assert_eq!(decrypt_string(&token, "pw").unwrap(), "");
    let token = encrypt_with_nonce("日本語 ✓", "pw", &[1u8; 12]).unwrap();
    assert_eq!(decrypt_string(&token, "pw").unwrap(), "日本語 ✓");
}

#[test]
fn encrypt_twice_gives_different_tokens() {
    let a = encrypt_string("same", "same-password").unwrap();
    let b = encrypt_string("same", "same-password").unwrap();
    assert_ne!(a, b);
    assert_ne!(unb64(&a)[..NONCE_LEN], unb64(&b)[..NONCE_LEN]);
}

#[test]
fn decrypt_with_wrong_password_fails_authentication() {
    let token = encrypt_with_nonce("top secret", "right", &[3u8; 12]).unwrap();
    assert_eq!(decrypt_string(&token, "wrong"), Err(CryptoError::AuthenticationFailed));
}

#[test]
fn decrypt_of_altered_token_fails_authentication() {
    let token = encrypt_with_nonce("top secret", "pw", &[4u8; 12]).unwrap();
    let mut bytes = unb64(&token);
    let last = bytes.len() - 1;
    bytes[last] ^= 1;
    assert_eq!(decrypt_string(&b64(&bytes), "pw"), Err(CryptoError::AuthenticationFailed));
}

#[test]
fn decrypt_short_token_is_malformed() {
    assert_eq!(decrypt_string(&b64(&[1, 2, 3, 4, 5]), "pw"), Err(CryptoError::MalformedToken));
    assert_eq!(decrypt_string(&b64(&[0u8; 11]), "pw"), Err(CryptoError::MalformedToken));
    assert_eq!(decrypt_string("", "pw"), Err(CryptoError::MalformedToken));
}

#[test]
fn decrypt_non_base64_is_malformed() {
    assert_eq!(decrypt_string("not base64!", "pw"), Err(CryptoError::MalformedToken));
    assert_eq!(decrypt_string("QUJD", "pw").is_err(), true);
}

#[test]
fn token_is_base64_of_nonce_and_sealed_text() {
    let nonce = [7u8; 12];
    let token = encrypt_with_nonce("secret", "hunter2", &nonce).unwrap();
    let bytes = unb64(&token);
    assert_eq!(bytes.len(), NONCE_LEN + 6 + TAG_LEN);
    assert_eq!(&bytes[..NONCE_LEN], &nonce);
    assert_ne!(&bytes[NONCE_LEN..NONCE_LEN + 6], b"secret");
}

#[test]
fn derive_key_matches_argon2id_over_hashed_salt() {
    let key = derive_key_from_password("hunter2").unwrap();
    assert_eq!(key.len(), KEY_LEN);
    let mut hasher = std::collections::hash_map::DefaultHasher::new();
    "hunter2".hash(&mut hasher);
    let h = hasher.finish().to_le_bytes();
    let mut salt = h.to_vec();
    salt.extend_from_slice(&h);
    let params = argon2::Params::new(65536, 3, 4, Some(32)).unwrap();
    let a = argon2::Argon2::new(argon2::Algorithm::Argon2id, argon2::Version::V0x13, params);
    let mut expected = [0u8; 32];
    a.hash_password_into(b"hunter2", &salt, &mut expected).unwrap();
    assert_eq!(key, expected.to_vec());
}

#[test]
fn derive_key_depends_on_password() {
    let a = derive_key_from_password("alpha").unwrap();
    let b = derive_key_from_password("beta").unwrap();
    assert_ne!(a, b);
}

#[test]
fn decrypt_of_non_utf8_plaintext_fails() {
    let key = derive_key_from_password("pw").unwrap();
    let cipher = aes_gcm::Aes256Gcm::new(aes_gcm::Key::<aes_gcm::Aes256Gcm>::from_slice(&key));
    let nonce = [5u8; 12];
    let sealed = cipher.encrypt(aes_gcm::Nonce::from_slice(&nonce), &[0xffu8, 0xfe][..]).unwrap();
    let mut bytes = nonce.to_vec();
    bytes.extend_from_slice(&sealed);
    assert_eq!(decrypt_string(&b64(&bytes), "pw"), Err(CryptoError::NonUtf8Plaintext));
}

#[test]
fn crypto_error_messages_name_the_category() {
    assert_eq!(CryptoError::MalformedToken.message(), "malformed token");
    assert_eq!(CryptoError::AuthenticationFailed.message(), "authentication failed");
    assert_eq!(CryptoError::KeyDerivationFailed.message(), "key derivation failed");
}

#[test]
fn crypto_index_page_is_blank() {
    let page = CryptoTemplate::index();
    assert!(!page.show_encrypted && !page.show_decrypted && !page.show_error);
    assert!(page.error.is_empty());
}

#[test]
fn encrypt_page_records_plaintext_length() {
    let form = EncryptForm { plaintext: "secret".to_string(), password: "hunter2".to_string() };
    let reply = encrypt("alice".to_string(), Some(1), &form);
    assert!(reply.page.show_encrypted);
    assert!(unb64(&reply.page.encrypted_text).len() >= 16);
    assert_eq!(reply.audit.action, AuditAction::Encrypt);
    assert_eq!(reply.audit.user_id, Some(1));
    assert_eq!(reply.audit.username, "alice");
    assert_eq!(reply.audit.resource.as_deref(), Some("/crypto/encrypt"));
    assert_eq!(reply.audit.details.as_deref(), Some("Encrypted text (length: 6)"));
}

#[test]
fn decrypt_page_records_failure_category() {
    let form = DecryptForm { ciphertext: "AAAA".to_string(), password: "pw".to_string() };
    let reply = decrypt("unknown".to_string(), None, &form);
    assert!(reply.page.show_error);
    assert_eq!(reply.page.error, "Decryption error: malformed token");
    assert_eq!(reply.audit.action, AuditAction::DecryptFailed);
    assert_eq!(reply.audit.user_id, None);
    assert_eq!(reply.audit.details.as_deref(), Some("Decryption failed: malformed token"));
}

#[test]
fn decrypt_page_shows_text_and_records_length() {
    let token = encrypt_with_nonce("héllo", "pw", &[2u8; 12]).unwrap();
    let form = DecryptForm { ciphertext: token, password: "pw".to_string() };
    let reply = decrypt("bob".to_string(), Some(2), &form);
    assert!(reply.page.show_decrypted);
    assert_eq!(reply.page.decrypted_text, "héllo");
    assert_eq!(reply.audit.action, AuditAction::Decrypt);
    assert_eq!(reply.audit.resource.as_deref(), Some("/crypto/decrypt"));
    assert_eq!(reply.audit.details.as_deref(), Some("Decrypted text (length: 6)"));
}
