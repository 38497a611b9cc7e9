//! Password change at the level of keys and envelopes.

use knot::crypto::cipher::{decrypt, encrypt};
use knot::crypto::keys::{derive_key, generate_dek, generate_salt};

/// Simulate the password change flow at the crypto level:
/// encrypt DEK with old password → re-encrypt with new password → verify
#[test]
fn test_change_password_flow() {
    let old_password = b"old_password_123";
    let new_password = b"new_password_456";

    // Setup: generate DEK and encrypt with old password
    let dek = generate_dek();
    let old_salt = generate_salt();
    let old_master_key = derive_key(old_password, &old_salt).unwrap();
    let encrypted_dek = encrypt(dek.as_bytes(), old_master_key.as_bytes()).unwrap();

    // Step 1: Verify old password by decrypting DEK
    let decrypted_dek_bytes = decrypt(&encrypted_dek, old_master_key.as_bytes()).unwrap();
    assert_eq!(decrypted_dek_bytes.as_slice(), dek.as_bytes());

    // Step 2: Re-encrypt DEK with new password
    let new_salt = generate_salt();
    let new_master_key = derive_key(new_password, &new_salt).unwrap();
    let new_encrypted_dek = encrypt(dek.as_bytes(), new_master_key.as_bytes()).unwrap();

    // Verify: new password can decrypt
    let recovered_dek = decrypt(&new_encrypted_dek, new_master_key.as_bytes()).unwrap();
    assert_eq!(recovered_dek.as_slice(), dek.as_bytes());

    // Verify: old password cannot decrypt new encrypted DEK
    let old_key_with_new_salt = derive_key(old_password, &new_salt).unwrap();
    assert!(decrypt(&new_encrypted_dek, old_key_with_new_salt.as_bytes()).is_err());
}

#[test]
fn test_change_password_dek_unchanged() {
    let password1 = b"password_one_123";
    let password2 = b"password_two_456";

    // The DEK should remain the same after password change
    let dek = generate_dek();
    let original_dek_copy: [u8; 32] = *dek.as_bytes();

    // Encrypt with password1
    let salt1 = generate_salt();
    let key1 = derive_key(password1, &salt1).unwrap();
    let enc1 = encrypt(dek.as_bytes(), key1.as_bytes()).unwrap();

    // Decrypt and re-encrypt with password2
    let dec = decrypt(&enc1, key1.as_bytes()).unwrap();
    let salt2 = generate_salt();
    let key2 = derive_key(password2, &salt2).unwrap();
    let enc2 = encrypt(&dec, key2.as_bytes()).unwrap();

    // Decrypt with password2 and verify DEK is unchanged
    let final_dek = decrypt(&enc2, key2.as_bytes()).unwrap();
    assert_eq!(final_dek.as_slice(), &original_dek_copy);
}

#[test]
fn test_wrong_current_password_fails_decrypt() {
    let correct_password = b"correct_pass_123";
    let wrong_password = b"wrong_pass_12345";

    let dek = generate_dek();
    let salt = generate_salt();
    let master_key = derive_key(correct_password, &salt).unwrap();
    let encrypted_dek = encrypt(dek.as_bytes(), master_key.as_bytes()).unwrap();

    // Wrong password should fail to decrypt
    let wrong_key = derive_key(wrong_password, &salt).unwrap();
    assert!(decrypt(&encrypted_dek, wrong_key.as_bytes()).is_err());
}
