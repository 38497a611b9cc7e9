//! Key derivation, envelope encryption and recovery phrases.

pub mod cipher;
pub mod keys;
mod random;
pub mod recovery;
pub mod wrapping;

pub use cipher::{decrypt, encrypt};
pub use keys::{derive_key, generate_dek, generate_salt};
pub use recovery::{generate_recovery_key, recovery_key_to_kek};
