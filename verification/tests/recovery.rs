//! Recovery phrases on concrete inputs.

use knot::crypto::recovery::{generate_recovery_key, recovery_key_to_kek};

#[test]
fn test_generate_recovery_key() {
    let mnemonic = generate_recovery_key().unwrap();
    let words: Vec<&str> = mnemonic.split_whitespace().collect();
    assert_eq!(words.len(), 12);
}

#[test]
fn test_recovery_key_to_kek() {
    let mnemonic = generate_recovery_key().unwrap();
    let kek1 = recovery_key_to_kek(&mnemonic).unwrap();
    let kek2 = recovery_key_to_kek(&mnemonic).unwrap();

    // Same mnemonic should produce same key
    assert_eq!(kek1.as_bytes(), kek2.as_bytes());
}

#[test]
fn test_invalid_mnemonic() {
    let result = recovery_key_to_kek("invalid mnemonic phrase");
    assert!(result.is_err());
}
