//! Security core of a local encrypted-notes vault.
//!
//! The library turns a password or a recovery phrase into access to the
//! database key, wraps that key for storage, and enforces a lockout after
//! repeated failed attempts. It performs no file access and reads no clock:
//! callers hand it what they read and carry out what it returns.

pub mod commands;
pub mod crypto;
pub mod text;
