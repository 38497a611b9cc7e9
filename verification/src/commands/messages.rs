//! Refusals and failures in words, as they are shown to the user.

use super::auth::{Denial, VaultError, MIN_PASSWORD_LENGTH};
use super::LOCKOUT_DURATION_SECS;
use crate::crypto::keys::key_error_message;
use crate::crypto::recovery::recovery_error_message;
use crate::text::{decimal, decimal_digits, join3};
use vstd::prelude::*;
use vstd::string::StringExecFns;

verus! {

/// The text that tells the shortest password accepted.
pub open spec fn password_too_short_message() -> Seq<char> {
    "Password must be at least "@ + decimal_digits(MIN_PASSWORD_LENGTH as nat) + " characters"@
}

/// The text of a wrong credential, with the attempts left where there are
/// any.
pub open spec fn wrong_credential_message(what: Seq<char>, attempts_left: u32) -> Seq<char> {
    if attempts_left == 0 {
        what
    } else {
        what + ". "@ + decimal_digits(attempts_left as nat) + " attempts remaining."@
    }
}

/// The text of a denial.
pub open spec fn denial_message(denial: Denial) -> Seq<char> {
    match denial {
        Denial::LockedOut { seconds } => "Too many failed attempts"@,
        Denial::VaultMissing => "Vault does not exist"@,
        Denial::InvalidSalt => "Invalid salt"@,
        Denial::InvalidVaultData => "Invalid vault data"@,
        Denial::InvalidRecoveryData => "Invalid recovery data"@,
        Denial::InvalidDek => "Invalid DEK"@,
        Denial::NotUnlocked => "Vault is not unlocked"@,
        Denial::PasswordTooShort => password_too_short_message(),
        Denial::RecoveryNotConfigured => "Recovery key not set up"@,
        Denial::WrongPassword { attempts_left } => wrong_credential_message(
            "Invalid password"@,
            attempts_left,
        ),
        Denial::WrongRecoveryKey { attempts_left } => wrong_credential_message(
            "Invalid recovery key"@,
            attempts_left,
        ),
        Denial::WrongCurrentPassword => "Invalid password"@,
    }
}

/// The seconds of lockout that a denial reports: those that remain where
/// authentication was locked, the full length where this failure locked it.
pub open spec fn denial_lockout_seconds(denial: Denial) -> Option<u64> {
    match denial {
        Denial::LockedOut { seconds } => Some(seconds),
        Denial::WrongPassword { attempts_left } if attempts_left == 0 => Some(
            LOCKOUT_DURATION_SECS,
        ),
        Denial::WrongRecoveryKey { attempts_left } if attempts_left == 0 => Some(
            LOCKOUT_DURATION_SECS,
        ),
        _ => None,
    }
}

/// The text of a failure.
pub open spec fn vault_error_message(error: VaultError) -> Seq<char> {
    match error {
        VaultError::PasswordTooShort => password_too_short_message(),
        VaultError::VaultExists => "Vault already exists"@,
        VaultError::VaultCorrupt => "Vault data is incomplete"@,
        VaultError::SaltUnreadable => "Failed to read salt"@,
        VaultError::WrappedKeyUnreadable => "Failed to read encrypted DEK"@,
        VaultError::Key(e) => key_error_message(e),
        VaultError::Recovery(e) => recovery_error_message(e),
    }
}

/// Writes the text that tells the shortest password accepted.
fn password_too_short() -> (text: String)
    ensures
        text@ == password_too_short_message(),
{
    let number = decimal(MIN_PASSWORD_LENGTH as u64);
    join3("Password must be at least ", number.as_str(), " characters")
}

/// Writes the text of a wrong credential.
fn wrong_credential(what: &str, attempts_left: u32) -> (text: String)
    ensures
        text@ == wrong_credential_message(what@, attempts_left),
{
    if attempts_left == 0 {
        what.to_owned()
    } else {
        let number = decimal(attempts_left as u64);
        let mut text = join3(what, ". ", number.as_str());
        text.append(" attempts remaining.");
        text
    }
}

impl Denial {
    /// The denial in words, as it is shown to the user.
    pub fn message(&self) -> (text: String)
        ensures
            text@ == denial_message(*self),
    {
        match self {
            Denial::LockedOut { seconds } => "Too many failed attempts".to_owned(),
            Denial::VaultMissing => "Vault does not exist".to_owned(),
            Denial::InvalidSalt => "Invalid salt".to_owned(),
            Denial::InvalidVaultData => "Invalid vault data".to_owned(),
            Denial::InvalidRecoveryData => "Invalid recovery data".to_owned(),
            Denial::InvalidDek => "Invalid DEK".to_owned(),
            Denial::NotUnlocked => "Vault is not unlocked".to_owned(),
            Denial::PasswordTooShort => password_too_short(),
            Denial::RecoveryNotConfigured => "Recovery key not set up".to_owned(),
            Denial::WrongPassword { attempts_left } => wrong_credential(
                "Invalid password",
                *attempts_left,
            ),
            Denial::WrongRecoveryKey { attempts_left } => wrong_credential(
                "Invalid recovery key",
                *attempts_left,
            ),
            Denial::WrongCurrentPassword => "Invalid password".to_owned(),
        }
    }

    /// The seconds of lockout that the denial reports.
    pub fn lockout_seconds(&self) -> (seconds: Option<u64>)
        ensures
            seconds == denial_lockout_seconds(*self),
    {
        match self {
            Denial::LockedOut { seconds } => Some(*seconds),
            Denial::WrongPassword { attempts_left } => if *attempts_left == 0 {
                Some(LOCKOUT_DURATION_SECS)
            } else {
                None
            },
            Denial::WrongRecoveryKey { attempts_left } => if *attempts_left == 0 {
                Some(LOCKOUT_DURATION_SECS)
            } else {
                None
            },
            _ => None,
        }
    }
}

impl VaultError {
    /// The failure in words.
    pub fn message(&self) -> (text: String)
        ensures
            text@ == vault_error_message(*self),
    {
        match self {
            VaultError::PasswordTooShort => password_too_short(),
            VaultError::VaultExists => "Vault already exists".to_owned(),
            VaultError::VaultCorrupt => "Vault data is incomplete".to_owned(),
            VaultError::SaltUnreadable => "Failed to read salt".to_owned(),
            VaultError::WrappedKeyUnreadable => "Failed to read encrypted DEK".to_owned(),
            VaultError::Key(e) => e.message(),
            VaultError::Recovery(e) => e.message(),
        }
    }
}

} // verus!
