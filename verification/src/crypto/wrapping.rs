//! The database key wrapped for storage: under the key derived from a
//! password and its salt, or under the key of a recovery phrase.

use super::cipher::{
    decrypt, decrypt_result, encrypt, is_encryption_of, lemma_decrypt_inverts_encrypt,
    CipherError, MIN_ENVELOPE_SIZE,
};
use super::keys::{
    derive_key, derived_key, generate_salt, key_result_view, wipe, KeyError, SecretKey, KEY_SIZE,
    MAX_PASSWORD_SIZE, SALT_SIZE,
};
use super::recovery::recovery_kek;
use vstd::pervasive::unreached;
use vstd::prelude::*;

verus! {

/// Longest wrapped key accepted, in bytes. Anything longer is corrupt.
pub const MAX_WRAPPED_KEY_SIZE: usize = 256;

/// Length in bytes of a wrapped database key: the key inside an envelope.
pub const WRAPPED_KEY_SIZE: usize = KEY_SIZE + MIN_ENVELOPE_SIZE;

/// Why a stored key could not be unwrapped.
#[derive(Debug, Clone, Copy, PartialEq, Eq, Structural)]
pub enum Fault {
    /// The salt could not be read.
    SaltUnreadable,
    /// The salt does not have `SALT_SIZE` bytes.
    InvalidSalt,
    /// No key could be derived from the password.
    Key(KeyError),
    /// The wrapped key could not be read.
    WrappedKeyUnreadable,
    /// The wrapped key is longer than `MAX_WRAPPED_KEY_SIZE`.
    OversizedWrappedKey,
    /// The wrapped key does not decrypt under the key offered.
    NotAuthentic,
    /// What was unwrapped does not have `KEY_SIZE` bytes.
    InvalidDek,
}

/// A salt and the database key wrapped under the password that goes with it.
/// The two are written together, replacing the old pair.
pub struct PasswordWrap {
    pub salt: [u8; SALT_SIZE],
    pub wrapped_dek: Vec<u8>,
}

/// The wrapped key `wrapped` holds `dek` under the key `kek`.
pub open spec fn wraps(wrapped: Seq<u8>, kek: Seq<u8>, dek: Seq<u8>) -> bool {
    &&& wrapped.len() == dek.len() + MIN_ENVELOPE_SIZE
    &&& decrypt_result(wrapped, kek) == Ok::<Seq<u8>, CipherError>(dek)
}

/// The salt and wrapped key give `dek` to whoever knows `password`.
pub open spec fn unlocks_to(
    password: Seq<u8>,
    salt: Seq<u8>,
    wrapped: Seq<u8>,
    dek: Seq<u8>,
) -> bool {
    &&& salt.len() == SALT_SIZE
    &&& dek.len() == KEY_SIZE
    &&& derived_key(password, salt) matches Ok(kek) && wraps(wrapped, kek, dek)
}

/// The wrapped key gives `dek` to whoever knows the recovery phrase.
pub open spec fn recovers_to(phrase: Seq<char>, wrapped: Seq<u8>, dek: Seq<u8>) -> bool {
    &&& dek.len() == KEY_SIZE
    &&& recovery_kek(phrase) matches Ok(kek) && wraps(wrapped, kek, dek)
}

/// No key can be derived from `password` under some salt. This is so of the
/// passwords of more than `MAX_PASSWORD_SIZE` bytes and of no other.
pub open spec fn derivation_fails(password: Seq<u8>) -> bool {
    exists|salt: Seq<u8>| salt.len() == SALT_SIZE && #[trigger] derived_key(password, salt) is Err
}

/// What unwrapping `wrapped` under `kek` gives: the size is checked first,
/// then the envelope is decrypted, then the length of what it held.
pub open spec fn unwrapped_with_key(wrapped: Seq<u8>, kek: Seq<u8>) -> Result<Seq<u8>, Fault> {
    if wrapped.len() > MAX_WRAPPED_KEY_SIZE {
        Err(Fault::OversizedWrappedKey)
    } else {
        match decrypt_result(wrapped, kek) {
            Err(_) => Err(Fault::NotAuthentic),
            Ok(dek) => if dek.len() == KEY_SIZE {
                Ok(dek)
            } else {
                Err(Fault::InvalidDek)
            },
        }
    }
}

/// What unwrapping the stored key with a password gives: the salt is
/// checked, the key derived, and then the wrapped key unwrapped.
pub open spec fn unwrapped_with_password(
    password: Seq<u8>,
    salt: Option<Vec<u8>>,
    wrapped: Option<Vec<u8>>,
) -> Result<Seq<u8>, Fault> {
    match salt {
        None => Err(Fault::SaltUnreadable),
        Some(salt) => if salt@.len() != SALT_SIZE {
            Err(Fault::InvalidSalt)
        } else {
            match derived_key(password, salt@) {
                Err(e) => Err(Fault::Key(e)),
                Ok(kek) => match wrapped {
                    None => Err(Fault::WrappedKeyUnreadable),
                    Some(wrapped) => unwrapped_with_key(wrapped@, kek),
                },
            }
        },
    }
}

/// Unwraps `wrapped` under `kek` into a database key.
pub fn unwrap_with_key(wrapped: &[u8], kek: &SecretKey) -> (result: Result<SecretKey, Fault>)
    ensures
        key_result_view(result) == unwrapped_with_key(wrapped@, kek@),
{
    if wrapped.len() > MAX_WRAPPED_KEY_SIZE {
        return Err(Fault::OversizedWrappedKey);
    }
    match decrypt(wrapped, kek.as_bytes()) {
        Err(_) => Err(Fault::NotAuthentic),
        Ok(mut bytes) => {
            let key = SecretKey::from_slice(bytes.as_slice());
            wipe(&mut bytes);
            match key {
                Ok(key) => Ok(key),
                Err(_) => Err(Fault::InvalidDek),
            }
        },
    }
}

/// Unwraps the stored key with a password.
pub fn unwrap_with_password(
    password: &[u8],
    salt: &Option<Vec<u8>>,
    wrapped: &Option<Vec<u8>>,
) -> (result: Result<SecretKey, Fault>)
    ensures
        key_result_view(result) == unwrapped_with_password(password@, *salt, *wrapped),
{
    let salt_bytes = match salt {
        None => {
            return Err(Fault::SaltUnreadable);
        },
        Some(bytes) => bytes,
    };
    if salt_bytes.len() != SALT_SIZE {
        return Err(Fault::InvalidSalt);
    }
    let mut salt_array = [0u8; SALT_SIZE];
    let mut i: usize = 0;
    while i < SALT_SIZE
        invariant
            i <= SALT_SIZE,
            salt_bytes@.len() == SALT_SIZE,
            forall|j: int| 0 <= j < i ==> salt_array@[j] == salt_bytes@[j],
        decreases SALT_SIZE - i,
    {
        salt_array[i] = salt_bytes[i];
        i += 1;
    }
    assert(salt_array@ =~= salt_bytes@);
    let kek = match derive_key(password, &salt_array) {
        Err(e) => {
            return Err(Fault::Key(e));
        },
        Ok(kek) => kek,
    };
    match wrapped {
        None => Err(Fault::WrappedKeyUnreadable),
        Some(wrapped_bytes) => unwrap_with_key(wrapped_bytes.as_slice(), &kek),
    }
}

/// Wraps `dek` under the key derived from `password` and `salt`.
///
/// The only failure is that of the key derivation, which a password meets if
/// and only if it has more than `MAX_PASSWORD_SIZE` bytes. The pair that comes
/// back gives `dek` to whoever knows `password`.
pub fn wrap_with_salt(dek: &SecretKey, password: &[u8], salt: [u8; SALT_SIZE]) -> (result: Result<
    PasswordWrap,
    KeyError,
>)
    ensures
        match result {
            Ok(wrap) => {
                &&& wrap.salt@ == salt@
                &&& derived_key(password@, salt@) matches Ok(kek) && is_encryption_of(
                    wrap.wrapped_dek@,
                    dek@,
                    kek,
                )
                &&& unlocks_to(password@, salt@, wrap.wrapped_dek@, dek@)
            },
            Err(error) => derived_key(password@, salt@) == Err::<Seq<u8>, KeyError>(error),
        },
        result is Ok <==> password@.len() <= MAX_PASSWORD_SIZE,
{
    proof {
        dek.lemma_len();
    }
    let kek = match derive_key(password, &salt) {
        Err(e) => {
            return Err(e);
        },
        Ok(kek) => kek,
    };
    match encrypt(dek.as_bytes().as_slice(), kek.as_bytes()) {
        // A key is far below the length at which the cipher refuses.
        Err(_) => unreached(),
        Ok(wrapped_dek) => {
            proof {
                lemma_wrapped_key_size(wrapped_dek@, dek@, kek@);
            }
            Ok(PasswordWrap { salt, wrapped_dek })
        },
    }
}

/// A wrapped database key has `WRAPPED_KEY_SIZE` bytes and decrypts to the
/// key.
pub proof fn lemma_wrapped_key_size(wrapped: Seq<u8>, dek: Seq<u8>, kek: Seq<u8>)
    ensures
        is_encryption_of(wrapped, dek, kek) && dek.len() == KEY_SIZE ==> wraps(wrapped, kek, dek)
            && wrapped.len() == WRAPPED_KEY_SIZE,
{
    lemma_decrypt_inverts_encrypt(wrapped, dek, kek);
}

/// Wraps `dek` under `password` with a salt drawn for this call.
///
/// Whatever salt was drawn, the pair that comes back gives `dek` to whoever
/// knows `password`. The only failure is that of the key derivation under the
/// salt drawn, which a password meets if and only if it has more than
/// `MAX_PASSWORD_SIZE` bytes.
pub fn wrap_with_password(dek: &SecretKey, password: &[u8]) -> (result: Result<PasswordWrap, KeyError>)
    ensures
        result matches Ok(wrap) ==> unlocks_to(
            password@,
            wrap.salt@,
            wrap.wrapped_dek@,
            dek@,
        ),
        result matches Err(error) ==> error == KeyError::DerivationFailed && derivation_fails(
            password@,
        ),
        result is Ok <==> password@.len() <= MAX_PASSWORD_SIZE,
{
    let salt = generate_salt();
    let result = wrap_with_salt(dek, password, salt);
    proof {
        if result is Err {
            assert(salt@.len() == SALT_SIZE);
            assert(derived_key(password@, salt@) is Err);
        }
    }
    result
}

/// A stored pair that gives a key to a password unwraps to that key under
/// that password.
pub proof fn lemma_stored_pair_unwraps(
    password: Seq<u8>,
    salt: Vec<u8>,
    wrapped: Vec<u8>,
    dek: Seq<u8>,
)
    ensures
        unlocks_to(password, salt@, wrapped@, dek) ==> unwrapped_with_password(
            password,
            Some(salt),
            Some(wrapped),
        ) == Ok::<Seq<u8>, Fault>(dek),
{
}

} // verus!
