//! Key material and password-based key derivation.

use super::random::fill_random;
use argon2::password_hash::{PasswordHasher, SaltString};
use argon2::{Algorithm, Argon2, Params, Version};
use vstd::prelude::*;
use zeroize::Zeroize;

verus! {

/// Length in bytes of every symmetric key.
pub const KEY_SIZE: usize = 32;

/// Length in bytes of a password salt.
pub const SALT_SIZE: usize = 32;

/// Memory cost of the password hash, in KiB (64 MiB).
pub const ARGON2_MEMORY_KIB: u32 = 65536;

/// Number of passes of the password hash.
pub const ARGON2_ITERATIONS: u32 = 3;

/// Degree of parallelism of the password hash.
pub const ARGON2_LANES: u32 = 4;

/// Length in bytes of the longest password that the hash takes.
pub const MAX_PASSWORD_SIZE: u64 = 0xffff_ffff;

/// Why a key could not be derived.
#[derive(Debug, Clone, Copy, PartialEq, Eq, Structural)]
pub enum KeyError {
    /// The password hash produced no output of the expected length.
    DerivationFailed,
    /// Key material of the wrong length was supplied.
    InvalidKeyLength,
}

/// The text of a key error.
pub open spec fn key_error_message(error: KeyError) -> Seq<char> {
    match error {
        KeyError::DerivationFailed => "Key derivation failed"@,
        KeyError::InvalidKeyLength => "Invalid key length"@,
    }
}

impl KeyError {
    /// The error in words.
    pub fn message(&self) -> (text: String)
        ensures
            text@ == key_error_message(*self),
    {
        match self {
            KeyError::DerivationFailed => "Key derivation failed".to_owned(),
            KeyError::InvalidKeyLength => "Invalid key length".to_owned(),
        }
    }
}

/// A 32-byte symmetric key. Its bytes are overwritten with zeros when the
/// value is dropped.
pub struct SecretKey {
    pub(crate) bytes: [u8; KEY_SIZE],
}

impl View for SecretKey {
    type V = Seq<u8>;

    closed spec fn view(&self) -> Seq<u8> {
        self.bytes@
    }
}

impl Drop for SecretKey {
    /// Overwrites the key bytes by `zeroize::Zeroize::zeroize`, whose writes
    /// the compiler may not remove.
    #[verifier::external_body]
    fn drop(&mut self)
        opens_invariants none
        no_unwind
    {
        self.bytes.zeroize()
    }
}

/// Overwrites `buffer` with zeros and empties it, by
/// `zeroize::Zeroize::zeroize` on a vector.
#[verifier::external_body]
pub(crate) fn wipe(buffer: &mut Vec<u8>)
    ensures
        final(buffer)@ == Seq::<u8>::empty(),
{
    buffer.zeroize()
}

/// Overwrites every byte of `buffer` with zero, by
/// `zeroize::Zeroize::zeroize` on an array.
#[verifier::external_body]
pub(crate) fn wipe_array<const N: usize>(buffer: &mut [u8; N])
    ensures
        forall|i: int| 0 <= i < N ==> final(buffer)@[i] == 0u8,
{
    buffer.zeroize()
}

impl SecretKey {
    /// Every key holds exactly `KEY_SIZE` bytes.
    pub proof fn lemma_len(&self)
        ensures
            self@.len() == KEY_SIZE,
    {
    }

    /// A key's view is the content of its buffer.
    pub(crate) proof fn lemma_view_is_bytes(&self)
        ensures
            self@ == self.bytes@,
    {
    }

    /// Takes ownership of `bytes` as a key.
    pub fn new(bytes: [u8; KEY_SIZE]) -> (key: SecretKey)
        ensures
            key@ == bytes@,
    {
        SecretKey { bytes }
    }

    /// The key made of the bytes of `bytes`. Anything but exactly `KEY_SIZE`
    /// bytes is refused as of invalid length.
    pub fn from_slice(bytes: &[u8]) -> (key: Result<SecretKey, KeyError>)
        ensures
            key_result_view(key) == (if bytes@.len() == KEY_SIZE {
                Ok::<Seq<u8>, KeyError>(bytes@)
            } else {
                Err::<Seq<u8>, KeyError>(KeyError::InvalidKeyLength)
            }),
    {
        if bytes.len() != KEY_SIZE {
            return Err(KeyError::InvalidKeyLength);
        }
        let mut key = SecretKey::zeroed();
        let mut i: usize = 0;
        while i < KEY_SIZE
            invariant
                i <= KEY_SIZE,
                bytes@.len() == KEY_SIZE,
                forall|j: int| 0 <= j < i ==> key.bytes@[j] == bytes@[j],
            decreases KEY_SIZE - i,
        {
            key.bytes[i] = bytes[i];
            i += 1;
        }
        assert(key@ =~= bytes@);
        Ok(key)
    }

    /// A key of zeros, to be filled in place.
    pub(crate) fn zeroed() -> (key: SecretKey)
        ensures
            key@ == Seq::new(KEY_SIZE as nat, |i: int| 0u8),
    {
        let key = SecretKey { bytes: [0u8; KEY_SIZE] };
        assert(key@ =~= Seq::new(KEY_SIZE as nat, |i: int| 0u8));
        key
    }

    /// The key's bytes.
    pub fn as_bytes(&self) -> (bytes: &[u8; KEY_SIZE])
        ensures
            bytes@ == self@,
    {
        &self.bytes
    }
}

/// A fresh salt for password hashing, drawn from the operating system's
/// secure random source. Nothing is promised of its bytes but their number.
pub fn generate_salt() -> (salt: [u8; SALT_SIZE]) {
    let mut salt = [0u8; SALT_SIZE];
    fill_random(&mut salt);
    salt
}

/// A fresh database key, drawn from the operating system's secure random
/// source into a buffer that is wiped when the key is dropped. Nothing is
/// promised of its bytes but their number.
pub fn generate_dek() -> (dek: SecretKey) {
    let mut dek = SecretKey::zeroed();
    fill_random(&mut dek.bytes);
    dek
}

/// The output of Argon2id, version 0x13, for the given password, salt and
/// costs, or `None` where the hash refuses them.
pub uninterp spec fn argon2id_v13(
    password: Seq<u8>,
    salt: Seq<u8>,
    memory_kib: nat,
    iterations: nat,
    lanes: nat,
    output_len: nat,
) -> Option<Seq<u8>>;

/// The costs, output length and password length that the hash takes: memory
/// of at least 8 KiB and 8 KiB for each lane, at least one pass, between 1
/// and 0xFFFFFF lanes, an output of 10 to 64 bytes and a password of at most
/// `MAX_PASSWORD_SIZE` bytes.
pub open spec fn argon2_accepts(
    memory_kib: nat,
    iterations: nat,
    lanes: nat,
    output_len: nat,
    password_len: nat,
) -> bool {
    &&& memory_kib >= 8
    &&& memory_kib >= 8 * lanes
    &&& iterations >= 1
    &&& 1 <= lanes <= 0x00ff_ffff
    &&& 10 <= output_len <= 64
    &&& password_len <= MAX_PASSWORD_SIZE
}

/// Hashes `password` with `salt` by `argon2::Argon2::hash_password`
/// (Argon2id, version 0x13), with costs built by `argon2::Params::new`.
///
/// The contract names the result: the hash is a function of its arguments.
/// `None` stands for every refusal, of the costs, of the salt or of the
/// password. Claimed beyond the name: an output has as many bytes as were
/// asked for, what `argon2_accepts` admits is hashed, and a password of more
/// than `MAX_PASSWORD_SIZE` bytes is refused. `lanes` is bounded because
/// `Params::new` multiplies it by eight in 32 bits. The hash allocates
/// `memory_kib` KiB and stops the process if it cannot have them.
#[verifier::external_body]
fn argon2id(
    password: &[u8],
    salt: &[u8; SALT_SIZE],
    memory_kib: u32,
    iterations: u32,
    lanes: u32,
    output_len: usize,
) -> (output: Option<Vec<u8>>)
    requires
        lanes <= 0x00ff_ffff,
    ensures
        match output {
            Some(bytes) => argon2id_v13(
                password@,
                salt@,
                memory_kib as nat,
                iterations as nat,
                lanes as nat,
                output_len as nat,
            ) == Some(bytes@),
            None => argon2id_v13(
                password@,
                salt@,
                memory_kib as nat,
                iterations as nat,
                lanes as nat,
                output_len as nat,
            ) is None,
        },
        output matches Some(bytes) ==> bytes@.len() == output_len,
        output is Some || !argon2_accepts(
            memory_kib as nat,
            iterations as nat,
            lanes as nat,
            output_len as nat,
            password@.len(),
        ),
        output is None || password@.len() <= MAX_PASSWORD_SIZE,
{
    let params = Params::new(memory_kib, iterations, lanes, Some(output_len)).ok()?;
    let hasher = Argon2::new(Algorithm::Argon2id, Version::V0x13, params);
    let salt_string = SaltString::encode_b64(salt).ok()?;
    let hash = hasher.hash_password(password, &salt_string).ok()?;
    Some(hash.hash?.as_bytes().to_vec())
}

/// The key that a hash output yields: its bytes where there are exactly
/// `KEY_SIZE` of them, a failed derivation otherwise.
pub open spec fn key_of_hash_output(output: Option<Seq<u8>>) -> Result<Seq<u8>, KeyError> {
    match output {
        Some(bytes) if bytes.len() == KEY_SIZE => Ok(bytes),
        _ => Err(KeyError::DerivationFailed),
    }
}

/// The key derived from `password` and `salt` under the fixed costs.
pub open spec fn derived_key(password: Seq<u8>, salt: Seq<u8>) -> Result<Seq<u8>, KeyError> {
    key_of_hash_output(
        argon2id_v13(
            password,
            salt,
            ARGON2_MEMORY_KIB as nat,
            ARGON2_ITERATIONS as nat,
            ARGON2_LANES as nat,
            KEY_SIZE as nat,
        ),
    )
}

/// What a key result holds, as plain bytes.
pub open spec fn key_result_view<E>(result: Result<SecretKey, E>) -> Result<Seq<u8>, E> {
    match result {
        Ok(key) => Ok(key@),
        Err(e) => Err(e),
    }
}

/// Turns the output of the password hash into a key and wipes the output.
///
/// A missing output, or one whose length is not `KEY_SIZE`, is a failed
/// derivation.
pub fn key_from_hash_output(output: Option<Vec<u8>>) -> (result: Result<SecretKey, KeyError>)
    ensures
        key_result_view(result) == key_of_hash_output(
            match output {
                Some(bytes) => Some(bytes@),
                None => None,
            },
        ),
{
    match output {
        None => Err(KeyError::DerivationFailed),
        Some(mut bytes) => {
            let key = SecretKey::from_slice(bytes.as_slice());
            wipe(&mut bytes);
            match key {
                Ok(key) => Ok(key),
                Err(_) => Err(KeyError::DerivationFailed),
            }
        },
    }
}

/// Derives a key from a password and a salt with Argon2id at 64 MiB of
/// memory, 3 passes and 4 lanes.
///
/// The same password and salt always give the same key. A password has a
/// key if and only if it has at most `MAX_PASSWORD_SIZE` bytes.
pub fn derive_key(password: &[u8], salt: &[u8; SALT_SIZE]) -> (result: Result<SecretKey, KeyError>)
    ensures
        key_result_view(result) == derived_key(password@, salt@),
        result is Ok <==> password@.len() <= MAX_PASSWORD_SIZE,
{
    let output = argon2id(
        password,
        salt,
        ARGON2_MEMORY_KIB,
        ARGON2_ITERATIONS,
        ARGON2_LANES,
        KEY_SIZE,
    );
    key_from_hash_output(output)
}

} // verus!
