//! Key generation and password-based derivation on concrete inputs.

use knot::crypto::keys::{derive_key, generate_dek, generate_salt};

#[test]
fn test_generate_salt() {
    let salt1 = generate_salt();
    let salt2 = generate_salt();
    assert_ne!(salt1, salt2);
}

#[test]
fn test_generate_dek() {
    let dek1 = generate_dek();
    let dek2 = generate_dek();
    assert_ne!(dek1.as_bytes(), dek2.as_bytes());
}

#[test]
fn test_derive_key() {
    let password = b"test_password";
    let salt = generate_salt();

    let key1 = derive_key(password, &salt).unwrap();
    let key2 = derive_key(password, &salt).unwrap();

    // Same password and salt should produce same key
    assert_eq!(key1.as_bytes(), key2.as_bytes());

    // Different salt should produce different key
    let salt2 = generate_salt();
    let key3 = derive_key(password, &salt2).unwrap();
    assert_ne!(key1.as_bytes(), key3.as_bytes());
}

#[test]
fn test_wrong_password_produces_different_key() {
    let salt = generate_salt();
    let key1 = derive_key(b"correct_password", &salt).unwrap();
    let key2 = derive_key(b"wrong_password", &salt).unwrap();

    // Different passwords should produce different keys
    assert_ne!(key1.as_bytes(), key2.as_bytes());
}

#[test]
fn test_empty_password() {
    let salt = generate_salt();
    // Empty password should still work (though not recommended)
    let result = derive_key(b"", &salt);
    assert!(result.is_ok());
}

#[test]
fn test_unicode_password() {
    let salt = generate_salt();
    let password = "ãƒ‘ã‚¹ãƒ¯ãƒ¼ãƒ‰ðŸ”".as_bytes();
    let key = derive_key(password, &salt).unwrap();

    // Should produce consistent results
    let key2 = derive_key(password, &salt).unwrap();
    assert_eq!(key.as_bytes(), key2.as_bytes());
}

#[test]
fn test_long_password() {
    let salt = generate_salt();
    let long_password = "a".repeat(10000);
    let result = derive_key(long_password.as_bytes(), &salt);
    assert!(result.is_ok());
}
