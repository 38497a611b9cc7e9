[package]
name = "knot"
version = "0.1.0"
edition = "2021"
publish = false

[dependencies]
argon2 = "0.5"
bip39 = "2"
chacha20poly1305 = "0.10"
chrono = { version = "0.4", default-features = false, features = ["clock", "serde", "std"] }
dirs = "6"
hkdf = "0.12"
rand = "0.8"
rusqlite = { version = "*", features = ["bundled-sqlcipher"] }
serde = { version = "1", features = ["derive"] }
serde_json = "1"
sha2 = "0.10"
tauri = { version = "2", default-features = false }
thiserror = "2"
uuid = { version = "1", features = ["v4", "serde"] }
zeroize = "1"
