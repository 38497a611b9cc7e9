//! The vault's lifecycle: setup, unlock, password change and recovery.
//!
//! Every operation is a function of what the caller read (the vault's files,
//! the persisted lockout record, the clocks) to what the caller has to write
//! and report. Nothing is written before an operation has succeeded as a
//! whole.

use super::messages::{denial_lockout_seconds, denial_message};
use super::{
    after_failure, after_success, lockout_at_entry, lockout_at_gate, persist_at_entry, AppState,
    Clock, LockoutData, LockoutPersist, LockoutState, MAX_FAILED_ATTEMPTS,
};
use crate::crypto::cipher::encrypt;
use crate::crypto::keys::{generate_dek, KeyError, SecretKey, MAX_PASSWORD_SIZE};
use crate::crypto::recovery::{
    generate_recovery_key, is_words_joined_by_spaces, recovery_kek, recovery_key_to_kek,
    RecoveryError, PHRASE_WORDS,
};
use crate::crypto::wrapping::{
    derivation_fails, lemma_wrapped_key_size, recovers_to, unlocks_to, unwrap_with_key, unwrap_with_password,
    unwrapped_with_key, unwrapped_with_password, wrap_with_password, Fault, PasswordWrap,
    MAX_WRAPPED_KEY_SIZE, WRAPPED_KEY_SIZE,
};
use vstd::pervasive::unreached;
use vstd::prelude::*;
use vstd::string::StringSliceAdditionalSpecFns;

verus! {

/// Shortest password accepted, in bytes.
pub const MIN_PASSWORD_LENGTH: usize = 8;

/// Which artifacts of a vault are present.
#[derive(Debug, Clone, Copy, PartialEq, Eq, Structural)]
pub struct VaultPresence {
    /// The password salt.
    pub salt: bool,
    /// The database key wrapped under the password.
    pub wrapped_dek: bool,
    /// The database key wrapped under the recovery phrase. A vault may have
    /// none.
    pub recovery_wrapped_dek: bool,
    /// The store.
    pub store: bool,
}

/// What the artifacts present say of a vault.
#[derive(Debug, Clone, Copy, PartialEq, Eq, Structural)]
pub enum VaultStatus {
    /// None of salt, wrapped key and store is present. A recovery
    /// wrapping that was left behind makes no vault, but it keeps setup from
    /// running.
    Absent,
    /// Salt, wrapped key and store are all present, with or without a
    /// recovery wrapping.
    Complete,
    /// Some of salt, wrapped key and store are present and some are
    /// missing. Such a vault neither exists nor can be set up anew.
    Corrupt,
}

/// What the caller read of a vault. A file that could not be read is `None`.
pub struct VaultFiles {
    /// Whether the store file is there.
    pub store_exists: bool,
    /// The password salt.
    pub salt: Option<Vec<u8>>,
    /// The database key wrapped under the password.
    pub wrapped_dek: Option<Vec<u8>>,
    /// The database key wrapped under the recovery phrase.
    pub recovery_wrapped_dek: Option<Vec<u8>>,
}

/// A refusal that is reported to the user in words.
///
/// A wrong credential and a lockout are failures of authentication: they
/// may be tried again, within the limits of the lockout. A short password or
/// an operation that does not fit the vault's state is a failure of
/// validation: it is reported at once and comes again for the same request.
/// Corrupt stored data (`InvalidSalt`, `InvalidVaultData`,
/// `InvalidRecoveryData`, `InvalidDek`) is not mended by trying again: the
/// key cannot be recovered from such data, whatever credential is offered.
#[derive(Debug, Clone, Copy, PartialEq, Eq, Structural)]
pub enum Denial {
    /// Authentication is locked for this many seconds.
    LockedOut { seconds: u64 },
    /// There is no store to unlock.
    VaultMissing,
    /// The salt is corrupt: it does not have its length. Trying again does
    /// not help.
    InvalidSalt,
    /// The wrapped key is corrupt: it is oversized. Trying again does not
    /// help.
    InvalidVaultData,
    /// The recovery wrapping is corrupt: it is oversized. Trying again does
    /// not help.
    InvalidRecoveryData,
    /// What was unwrapped is no database key: the wrapping is corrupt.
    /// Trying again does not help.
    InvalidDek,
    /// The operation needs an unlocked vault.
    NotUnlocked,
    /// The new password is shorter than `MIN_PASSWORD_LENGTH`.
    PasswordTooShort,
    /// The vault has no recovery wrapping.
    RecoveryNotConfigured,
    /// The password is wrong. This many attempts are left; with none left,
    /// authentication is now locked for `LOCKOUT_DURATION_SECS`.
    WrongPassword { attempts_left: u32 },
    /// The recovery phrase is wrong, counted like a wrong password.
    WrongRecoveryKey { attempts_left: u32 },
    /// The current password is wrong. This is not counted.
    WrongCurrentPassword,
}

/// A failure that ends the operation for good.
#[derive(Debug, Clone, Copy, PartialEq, Eq, Structural)]
pub enum VaultError {
    /// The password is shorter than `MIN_PASSWORD_LENGTH`.
    PasswordTooShort,
    /// Some artifact of a vault is already there.
    VaultExists,
    /// Only a part of salt, wrapped key and store is there: the vault is
    /// corrupt. It neither exists nor is it absent.
    VaultCorrupt,
    /// The salt could not be read.
    SaltUnreadable,
    /// The wrapped key could not be read.
    WrappedKeyUnreadable,
    /// Key derivation failed.
    Key(KeyError),
    /// The recovery phrase is malformed.
    Recovery(RecoveryError),
}

/// How an operation ended.
pub enum Outcome<T> {
    /// It went through, with this result.
    Granted(T),
    /// It was refused.
    Denied(Denial),
    /// It failed.
    Failed(VaultError),
}

/// An outcome together with what has to happen to the persisted lockout
/// record.
pub struct AuthOutcome<T> {
    pub attempt: Outcome<T>,
    pub persist: LockoutPersist,
}

/// A recovery phrase and the database key wrapped under it. The phrase is
/// shown to the user once and never stored.
pub struct RecoveryKit {
    pub phrase: String,
    pub wrapped_dek: Vec<u8>,
}

/// A vault that was set up: what to write, and the key to open the store
/// with.
pub struct NewVault {
    pub wrap: PasswordWrap,
    pub recovery: Option<RecoveryKit>,
    pub dek: SecretKey,
}

/// A vault that was recovered: the new pair to write, and the key to open
/// the store with.
pub struct Recovered {
    pub wrap: PasswordWrap,
    pub dek: SecretKey,
}

/// The result of setup as it is reported.
#[derive(Debug)]
pub struct SetupResult {
    pub success: bool,
    pub recovery_key: Option<String>,
}

/// The result of an authentication as it is reported.
#[derive(Debug)]
pub struct AuthResult {
    pub success: bool,
    pub error: Option<String>,
    /// Seconds of lockout, where authentication is locked.
    pub lockout_seconds: Option<u64>,
}

/// A vault exists where salt, wrapped key and store are all present.
pub open spec fn vault_exists(present: VaultPresence) -> bool {
    present.salt && present.wrapped_dek && present.store
}

/// Some artifact of a vault is present, so that setup must not run.
pub open spec fn any_artifact(present: VaultPresence) -> bool {
    present.salt || present.wrapped_dek || present.recovery_wrapped_dek || present.store
}

/// An outcome that carries a key, as plain bytes.
pub open spec fn key_outcome_view(outcome: Outcome<SecretKey>) -> Outcome<Seq<u8>> {
    match outcome {
        Outcome::Granted(key) => Outcome::Granted(key@),
        Outcome::Denied(denial) => Outcome::Denied(denial),
        Outcome::Failed(error) => Outcome::Failed(error),
    }
}

/// What the artifacts present say of a vault: it is complete with salt,
/// wrapped key and store, absent with none of them, and corrupt with only
/// some.
pub open spec fn status_of(present: VaultPresence) -> VaultStatus {
    if vault_exists(present) {
        VaultStatus::Complete
    } else if present.salt || present.wrapped_dek || present.store {
        VaultStatus::Corrupt
    } else {
        VaultStatus::Absent
    }
}

/// Tells a vault that is complete from one that is absent and from one of
/// which only a part is left.
pub fn vault_status(present: &VaultPresence) -> (status: VaultStatus)
    ensures
        status == status_of(*present),
{
    if present.salt && present.wrapped_dek && present.store {
        VaultStatus::Complete
    } else if present.salt || present.wrapped_dek || present.store {
        VaultStatus::Corrupt
    } else {
        VaultStatus::Absent
    }
}

/// What the check for a vault answers: that there is one, that there is
/// none, or that what is there is corrupt.
pub open spec fn vault_check(present: VaultPresence) -> Result<bool, VaultError> {
    match status_of(present) {
        VaultStatus::Complete => Ok(true),
        VaultStatus::Absent => Ok(false),
        VaultStatus::Corrupt => Err(VaultError::VaultCorrupt),
    }
}

/// Whether a vault exists. It does where salt, wrapped key and store are all
/// present, and does not where none of them is. Where only some are, the
/// vault is reported as corrupt, not as missing.
pub fn check_vault_exists(present: &VaultPresence) -> (exists: Result<bool, VaultError>)
    ensures
        exists == vault_check(*present),
{
    match vault_status(present) {
        VaultStatus::Complete => Ok(true),
        VaultStatus::Absent => Ok(false),
        VaultStatus::Corrupt => Err(VaultError::VaultCorrupt),
    }
}

/// Whatever stands in the way of setup makes the vault complete or corrupt,
/// but for a recovery wrapping left behind alone; and setup can run on no
/// vault that is complete or corrupt.
pub proof fn lemma_setup_needs_absent_vault(present: VaultPresence)
    ensures
        !any_artifact(present) ==> status_of(present) == VaultStatus::Absent,
        status_of(present) != VaultStatus::Absent ==> any_artifact(present),
        any_artifact(present) && status_of(present) == VaultStatus::Absent ==> {
            &&& present.recovery_wrapped_dek
            &&& !present.salt
            &&& !present.wrapped_dek
            &&& !present.store
        },
{
}

/// How many attempts are left after `failed_attempts` consecutive failures.
pub open spec fn attempts_left(failed_attempts: u32) -> u32 {
    if failed_attempts >= MAX_FAILED_ATTEMPTS {
        0
    } else {
        (MAX_FAILED_ATTEMPTS - failed_attempts) as u32
    }
}

/// The state of the guard and the action on its record after an operation,
/// with the operation's outcome.
pub struct Transition<T> {
    pub attempt: Outcome<T>,
    pub lockout: LockoutState,
    pub persist: LockoutPersist,
}

/// The transition of a counted failure: the guard counts it, the record is
/// stored, and the denial made by `denial` of the attempts left is reported.
pub open spec fn counted_failure<T>(
    entry: LockoutState,
    clock: Clock,
    denial: spec_fn(u32) -> Denial,
) -> Transition<T> {
    let counted = after_failure(entry, clock.now);
    Transition {
        attempt: Outcome::Denied(denial(attempts_left(counted.failed_attempts))),
        lockout: counted,
        persist: LockoutPersist::Store(
            LockoutData {
                failed_attempts: counted.failed_attempts,
                last_failed_at_epoch: clock.now_epoch,
            },
        ),
    }
}

/// What unlocking with a password does.
///
/// A lockout in force refuses before anything else is looked at. Then the
/// store must be there, the salt readable and well-formed, the key derivable,
/// the wrapped key readable and not oversized. A wrapped key that does not
/// decrypt is a failed attempt: it is counted, and the denial tells how many
/// attempts are left. The guard is not reset here: that happens once the
/// store has opened.
pub open spec fn unlock_transition(
    lockout: LockoutState,
    password: Seq<u8>,
    files: VaultFiles,
    record: Option<LockoutData>,
    clock: Clock,
) -> Transition<Seq<u8>> {
    let entry = lockout_at_entry(lockout, record, clock);
    let persist = persist_at_entry(lockout, record, clock);
    if let Some(seconds) = lockout_at_gate(lockout, record, clock) {
        Transition {
            attempt: Outcome::Denied(Denial::LockedOut { seconds }),
            lockout: entry,
            persist,
        }
    } else if !files.store_exists {
        Transition { attempt: Outcome::Denied(Denial::VaultMissing), lockout: entry, persist }
    } else {
        match unwrapped_with_password(password, files.salt, files.wrapped_dek) {
            Ok(dek) => Transition { attempt: Outcome::Granted(dek), lockout: entry, persist },
            Err(Fault::NotAuthentic) => counted_failure(
                entry,
                clock,
                |left: u32| Denial::WrongPassword { attempts_left: left },
            ),
            Err(fault) => Transition {
                attempt: password_fault_outcome(fault),
                lockout: entry,
                persist,
            },
        }
    }
}

/// How a fault in unwrapping with a password is reported, but for a wrong
/// password, which each operation reports in its own way.
pub open spec fn password_fault_outcome<T>(fault: Fault) -> Outcome<T> {
    match fault {
        Fault::SaltUnreadable => Outcome::Failed(VaultError::SaltUnreadable),
        Fault::InvalidSalt => Outcome::Denied(Denial::InvalidSalt),
        Fault::Key(e) => Outcome::Failed(VaultError::Key(e)),
        Fault::WrappedKeyUnreadable => Outcome::Failed(VaultError::WrappedKeyUnreadable),
        Fault::OversizedWrappedKey => Outcome::Denied(Denial::InvalidVaultData),
        Fault::NotAuthentic => Outcome::Denied(Denial::WrongCurrentPassword),
        Fault::InvalidDek => Outcome::Denied(Denial::InvalidDek),
    }
}

/// Reports a fault in unwrapping with a password.
fn report_password_fault<T>(fault: Fault) -> (outcome: Outcome<T>)
    ensures
        outcome == password_fault_outcome::<T>(fault),
{
    match fault {
        Fault::SaltUnreadable => Outcome::Failed(VaultError::SaltUnreadable),
        Fault::InvalidSalt => Outcome::Denied(Denial::InvalidSalt),
        Fault::Key(e) => Outcome::Failed(VaultError::Key(e)),
        Fault::WrappedKeyUnreadable => Outcome::Failed(VaultError::WrappedKeyUnreadable),
        Fault::OversizedWrappedKey => Outcome::Denied(Denial::InvalidVaultData),
        Fault::NotAuthentic => Outcome::Denied(Denial::WrongCurrentPassword),
        Fault::InvalidDek => Outcome::Denied(Denial::InvalidDek),
    }
}

/// Attempts left after the failures counted so far.
fn count_attempts_left(failed_attempts: u32) -> (left: u32)
    ensures
        left == attempts_left(failed_attempts),
{
    if failed_attempts >= MAX_FAILED_ATTEMPTS {
        0
    } else {
        MAX_FAILED_ATTEMPTS - failed_attempts
    }
}

/// Reports the lockout, as at startup: the seconds that remain, if any, and
/// what to do with the persisted record.
pub fn check_lockout_status<S>(
    state: &mut AppState<S>,
    record: Option<LockoutData>,
    clock: &Clock,
) -> (status: (Option<u64>, LockoutPersist))
    ensures
        status.0 == lockout_at_gate(old(state).lockout(), record, *clock),
        status.1 == persist_at_entry(old(state).lockout(), record, *clock),
        final(state).lockout() == lockout_at_entry(old(state).lockout(), record, *clock),
        final(state).dek == old(state).dek,
        final(state).db == old(state).db,
        old(state).wf() ==> final(state).wf(),
{
    state.check_lockout(record, clock)
}

/// Unlocks the vault with a password, up to the opening of the store.
///
/// On `Granted` the caller opens the store with the key and, if that works,
/// calls `finish_unlock`; a store that does not open under the key is a hard
/// failure. In every case the caller carries out `persist`.
pub fn unlock_vault<S>(
    state: &mut AppState<S>,
    password: &str,
    files: &VaultFiles,
    record: Option<LockoutData>,
    clock: &Clock,
) -> (outcome: AuthOutcome<SecretKey>)
    requires
        old(state).wf(),
    ensures
        key_outcome_view(outcome.attempt) == unlock_transition(
            old(state).lockout(),
            password.spec_bytes(),
            *files,
            record,
            *clock,
        ).attempt,
        final(state).lockout() == unlock_transition(
            old(state).lockout(),
            password.spec_bytes(),
            *files,
            record,
            *clock,
        ).lockout,
        outcome.persist == unlock_transition(
            old(state).lockout(),
            password.spec_bytes(),
            *files,
            record,
            *clock,
        ).persist,
        final(state).dek == old(state).dek,
        final(state).db == old(state).db,
        final(state).wf(),
{
    let (remaining, persist) = state.check_lockout(record, clock);
    if let Some(seconds) = remaining {
        return AuthOutcome { attempt: Outcome::Denied(Denial::LockedOut { seconds }), persist };
    }
    if !files.store_exists {
        return AuthOutcome { attempt: Outcome::Denied(Denial::VaultMissing), persist };
    }
    match unwrap_with_password(password.as_bytes(), &files.salt, &files.wrapped_dek) {
        Ok(dek) => AuthOutcome { attempt: Outcome::Granted(dek), persist },
        Err(Fault::NotAuthentic) => {
            let stored = state.record_failed_attempt(None, clock);
            let left = count_attempts_left(state.failed_attempts);
            AuthOutcome {
                attempt: Outcome::Denied(Denial::WrongPassword { attempts_left: left }),
                persist: stored,
            }
        },
        Err(fault) => AuthOutcome { attempt: report_password_fault(fault), persist },
    }
}

/// Completes an unlock or a recovery once the store has opened: the session
/// holds key and store, and the guard is reset. The persisted record is to be
/// deleted.
pub fn finish_unlock<S>(state: &mut AppState<S>, dek: SecretKey, db: S) -> (persist:
    LockoutPersist)
    ensures
        final(state).unlocked(),
        final(state).dek == Some(dek),
        final(state).db == Some(db),
        final(state).lockout() == after_success(old(state).lockout()),
        persist == LockoutPersist::Remove,
        final(state).wf(),
{
    state.dek = Some(dek);
    state.db = Some(db);
    state.reset_failed_attempts()
}

/// Completes setup once the store has opened: the session holds key and
/// store. The guard is untouched.
pub fn finish_setup<S>(state: &mut AppState<S>, dek: SecretKey, db: S)
    ensures
        final(state).unlocked(),
        final(state).dek == Some(dek),
        final(state).db == Some(db),
        final(state).lockout() == old(state).lockout(),
{
    state.dek = Some(dek);
    state.db = Some(db);
}

/// Locks the vault, whatever state it is in.
pub fn lock_vault<S>(state: &mut AppState<S>) -> (locked: bool)
    ensures
        locked,
        !final(state).unlocked(),
        final(state).dek is None,
        final(state).db is None,
        final(state).lockout() == old(state).lockout(),
{
    state.lock();
    true
}

/// Two outcomes are the same refusal or the same failure.
pub open spec fn same_refusal<A, B>(expected: Outcome<A>, actual: Outcome<B>) -> bool {
    match expected {
        Outcome::Granted(_) => false,
        Outcome::Denied(denial) => actual matches Outcome::Denied(d) && d == denial,
        Outcome::Failed(error) => actual matches Outcome::Failed(e) && e == error,
    }
}

/// What a password change finds before anything new is made: the vault must
/// be unlocked, the new password long enough, and the current password must
/// unwrap the stored key. A wrong current password is not counted.
pub open spec fn change_gate(
    unlocked: bool,
    current_password: Seq<u8>,
    new_password: Seq<u8>,
    files: VaultFiles,
) -> Outcome<Seq<u8>> {
    if !unlocked {
        Outcome::Denied(Denial::NotUnlocked)
    } else if new_password.len() < MIN_PASSWORD_LENGTH {
        Outcome::Denied(Denial::PasswordTooShort)
    } else {
        match unwrapped_with_password(current_password, files.salt, files.wrapped_dek) {
            Ok(dek) => Outcome::Granted(dek),
            Err(fault) => password_fault_outcome(fault),
        }
    }
}

/// Changes the password: verifies the current one against the stored pair,
/// then wraps the same database key under the new one with a new salt.
///
/// On `Granted` the caller replaces the stored pair by the one returned. The
/// database key is the one that the current password unwrapped: it is never
/// made anew. Once the current password is verified, the change is granted
/// unless the new password has more than `MAX_PASSWORD_SIZE` bytes, from
/// which no key can be derived.
pub fn change_password<S>(
    state: &AppState<S>,
    current_password: &str,
    new_password: &str,
    files: &VaultFiles,
) -> (outcome: Outcome<PasswordWrap>)
    ensures
        match change_gate(
            state.unlocked(),
            current_password.spec_bytes(),
            new_password.spec_bytes(),
            *files,
        ) {
            Outcome::Granted(dek) => match outcome {
                Outcome::Granted(wrap) => unlocks_to(
                    new_password.spec_bytes(),
                    wrap.salt@,
                    wrap.wrapped_dek@,
                    dek,
                ),
                Outcome::Denied(_) => false,
                Outcome::Failed(error) => error == VaultError::Key(KeyError::DerivationFailed)
                    && derivation_fails(new_password.spec_bytes()),
            },
            refusal => same_refusal(refusal, outcome),
        },
        change_gate(
            state.unlocked(),
            current_password.spec_bytes(),
            new_password.spec_bytes(),
            *files,
        ) is Granted ==> (outcome is Granted <==> new_password.spec_bytes().len()
            <= MAX_PASSWORD_SIZE),
{
    if !state.is_unlocked() {
        return Outcome::Denied(Denial::NotUnlocked);
    }
    if new_password.as_bytes().len() < MIN_PASSWORD_LENGTH {
        return Outcome::Denied(Denial::PasswordTooShort);
    }
    let dek = match unwrap_with_password(
        current_password.as_bytes(),
        &files.salt,
        &files.wrapped_dek,
    ) {
        Err(fault) => {
            return report_password_fault(fault);
        },
        Ok(dek) => dek,
    };
    match wrap_with_password(&dek, new_password.as_bytes()) {
        Ok(wrap) => Outcome::Granted(wrap),
        Err(error) => Outcome::Failed(VaultError::Key(error)),
    }
}

/// What a recovery finds before anything new is made.
///
/// A lockout in force refuses before anything else is looked at. Then the new
/// password must be long enough, the recovery wrapping be there and not
/// oversized, and the phrase be a valid mnemonic. A recovery wrapping that
/// does not decrypt under the phrase's key is a failed attempt, counted like
/// a wrong password; one that holds anything but a key is refused without
/// being counted.
pub open spec fn recover_gate(
    lockout: LockoutState,
    phrase: Seq<char>,
    new_password: Seq<u8>,
    files: VaultFiles,
    record: Option<LockoutData>,
    clock: Clock,
) -> Transition<Seq<u8>> {
    let entry = lockout_at_entry(lockout, record, clock);
    let persist = persist_at_entry(lockout, record, clock);
    if let Some(seconds) = lockout_at_gate(lockout, record, clock) {
        Transition {
            attempt: Outcome::Denied(Denial::LockedOut { seconds }),
            lockout: entry,
            persist,
        }
    } else if new_password.len() < MIN_PASSWORD_LENGTH {
        Transition { attempt: Outcome::Denied(Denial::PasswordTooShort), lockout: entry, persist }
    } else {
        match files.recovery_wrapped_dek {
            None => Transition {
                attempt: Outcome::Denied(Denial::RecoveryNotConfigured),
                lockout: entry,
                persist,
            },
            Some(wrapped) => if wrapped@.len() > MAX_WRAPPED_KEY_SIZE {
                Transition {
                    attempt: Outcome::Denied(Denial::InvalidRecoveryData),
                    lockout: entry,
                    persist,
                }
            } else {
                match recovery_kek(phrase) {
                    Err(e) => Transition {
                        attempt: Outcome::Failed(VaultError::Recovery(e)),
                        lockout: entry,
                        persist,
                    },
                    Ok(kek) => match unwrapped_with_key(wrapped@, kek) {
                        Ok(dek) => Transition {
                            attempt: Outcome::Granted(dek),
                            lockout: entry,
                            persist,
                        },
                        Err(Fault::NotAuthentic) => counted_failure(
                            entry,
                            clock,
                            |left: u32| Denial::WrongRecoveryKey { attempts_left: left },
                        ),
                        Err(_) => Transition {
                            attempt: Outcome::Denied(Denial::InvalidDek),
                            lockout: entry,
                            persist,
                        },
                    },
                }
            },
        }
    }
}

/// Recovers the vault with a recovery phrase and sets a new password, up to
/// the opening of the store.
///
/// On `Granted` the caller replaces the stored pair by the one returned,
/// opens the store with the key and calls `finish_unlock`. The key is the one
/// that the phrase unwrapped. Once the phrase has unwrapped it, recovery is
/// granted unless the new password has more than `MAX_PASSWORD_SIZE` bytes,
/// from which no key can be derived. In every case the caller carries out
/// `persist`.
pub fn recover_vault<S>(
    state: &mut AppState<S>,
    mnemonic: &str,
    new_password: &str,
    files: &VaultFiles,
    record: Option<LockoutData>,
    clock: &Clock,
) -> (outcome: AuthOutcome<Recovered>)
    requires
        old(state).wf(),
    ensures
        match recover_gate(
            old(state).lockout(),
            mnemonic@,
            new_password.spec_bytes(),
            *files,
            record,
            *clock,
        ).attempt {
            Outcome::Granted(dek) => match outcome.attempt {
                Outcome::Granted(recovered) => recovered.dek@ == dek && unlocks_to(
                    new_password.spec_bytes(),
                    recovered.wrap.salt@,
                    recovered.wrap.wrapped_dek@,
                    dek,
                ),
                Outcome::Denied(_) => false,
                Outcome::Failed(error) => error == VaultError::Key(KeyError::DerivationFailed)
                    && derivation_fails(new_password.spec_bytes()),
            },
            refusal => same_refusal(refusal, outcome.attempt),
        },
        recover_gate(
            old(state).lockout(),
            mnemonic@,
            new_password.spec_bytes(),
            *files,
            record,
            *clock,
        ).attempt is Granted ==> (outcome.attempt is Granted <==> new_password.spec_bytes().len()
            <= MAX_PASSWORD_SIZE),
        final(state).lockout() == recover_gate(
            old(state).lockout(),
            mnemonic@,
            new_password.spec_bytes(),
            *files,
            record,
            *clock,
        ).lockout,
        outcome.persist == recover_gate(
            old(state).lockout(),
            mnemonic@,
            new_password.spec_bytes(),
            *files,
            record,
            *clock,
        ).persist,
        final(state).dek == old(state).dek,
        final(state).db == old(state).db,
        final(state).wf(),
{
    let (remaining, persist) = state.check_lockout(record, clock);
    if let Some(seconds) = remaining {
        return AuthOutcome { attempt: Outcome::Denied(Denial::LockedOut { seconds }), persist };
    }
    if new_password.as_bytes().len() < MIN_PASSWORD_LENGTH {
        return AuthOutcome { attempt: Outcome::Denied(Denial::PasswordTooShort), persist };
    }
    let wrapped = match &files.recovery_wrapped_dek {
        None => {
            return AuthOutcome {
                attempt: Outcome::Denied(Denial::RecoveryNotConfigured),
                persist,
            };
        },
        Some(wrapped) => wrapped,
    };
    if wrapped.len() > MAX_WRAPPED_KEY_SIZE {
        return AuthOutcome { attempt: Outcome::Denied(Denial::InvalidRecoveryData), persist };
    }
    let kek = match recovery_key_to_kek(mnemonic) {
        Err(e) => {
            return AuthOutcome { attempt: Outcome::Failed(VaultError::Recovery(e)), persist };
        },
        Ok(kek) => kek,
    };
    let dek = match unwrap_with_key(wrapped.as_slice(), &kek) {
        Ok(dek) => dek,
        Err(Fault::NotAuthentic) => {
            let stored = state.record_failed_attempt(None, clock);
            let left = count_attempts_left(state.failed_attempts);
            return AuthOutcome {
                attempt: Outcome::Denied(Denial::WrongRecoveryKey { attempts_left: left }),
                persist: stored,
            };
        },
        Err(_) => {
            return AuthOutcome { attempt: Outcome::Denied(Denial::InvalidDek), persist };
        },
    };
    match wrap_with_password(&dek, new_password.as_bytes()) {
        Ok(wrap) => AuthOutcome { attempt: Outcome::Granted(Recovered { wrap, dek }), persist },
        Err(error) => AuthOutcome { attempt: Outcome::Failed(VaultError::Key(error)), persist },
    }
}

/// Sets a new vault up: a salt, a database key wrapped under the password
/// and, where asked for, a recovery phrase with a second wrapping of the same
/// key.
///
/// A password shorter than `MIN_PASSWORD_LENGTH` is refused, and so is setup
/// where any artifact of a vault is present, the recovery wrapping too:
/// nothing is ever overwritten. Otherwise setup succeeds unless the
/// password has more than `MAX_PASSWORD_SIZE` bytes, from which no key can be
/// derived. On success the caller writes the artifacts,
/// opens the store with the key and calls `finish_setup`.
pub fn setup_vault(password: &str, create_recovery_key: bool, present: &VaultPresence) -> (result:
    Result<NewVault, VaultError>)
    ensures
        password.spec_bytes().len() < MIN_PASSWORD_LENGTH ==> (result matches Err(error) && error
            == VaultError::PasswordTooShort),
        password.spec_bytes().len() >= MIN_PASSWORD_LENGTH && any_artifact(*present) ==> (result
            matches Err(error) && error == VaultError::VaultExists),
        password.spec_bytes().len() >= MIN_PASSWORD_LENGTH && !any_artifact(*present)
            ==> match result {
            Ok(vault) => {
                &&& unlocks_to(
                    password.spec_bytes(),
                    vault.wrap.salt@,
                    vault.wrap.wrapped_dek@,
                    vault.dek@,
                )
                &&& vault.recovery is Some <==> create_recovery_key
                &&& vault.recovery matches Some(kit) ==> recovers_to(
                    kit.phrase@,
                    kit.wrapped_dek@,
                    vault.dek@,
                ) && is_words_joined_by_spaces(kit.phrase@, PHRASE_WORDS as nat)
                &&& vault.wrap.wrapped_dek@.len() == WRAPPED_KEY_SIZE
                &&& vault.recovery matches Some(kit) ==> kit.wrapped_dek@.len()
                    == WRAPPED_KEY_SIZE
            },
            Err(error) => error == VaultError::Key(KeyError::DerivationFailed) && derivation_fails(
                password.spec_bytes(),
            ),
        },
        result is Ok <==> MIN_PASSWORD_LENGTH <= password.spec_bytes().len() <= MAX_PASSWORD_SIZE
            && !any_artifact(*present),
{
    if password.as_bytes().len() < MIN_PASSWORD_LENGTH {
        return Err(VaultError::PasswordTooShort);
    }
    if present.salt || present.wrapped_dek || present.recovery_wrapped_dek || present.store {
        return Err(VaultError::VaultExists);
    }
    let dek = generate_dek();
    proof {
        dek.lemma_len();
    }
    let wrap = match wrap_with_password(&dek, password.as_bytes()) {
        Err(error) => {
            return Err(VaultError::Key(error));
        },
        Ok(wrap) => wrap,
    };
    let recovery = if create_recovery_key {
        // A phrase can always be made, has a key, and a key is far below the
        // length at which the cipher refuses.
        let phrase = match generate_recovery_key() {
            Err(_) => unreached(),
            Ok(phrase) => phrase,
        };
        let kek = match recovery_key_to_kek(phrase.as_str()) {
            Err(_) => unreached(),
            Ok(kek) => kek,
        };
        let wrapped_dek = match encrypt(dek.as_bytes().as_slice(), kek.as_bytes()) {
            Err(_) => unreached(),
            Ok(wrapped_dek) => wrapped_dek,
        };
        proof {
            lemma_wrapped_key_size(wrapped_dek@, dek@, kek@);
        }
        Some(RecoveryKit { phrase, wrapped_dek })
    } else {
        None
    };
    Ok(NewVault { wrap, recovery, dek })
}

impl AuthResult {
    /// The report of an authentication that went through.
    pub fn granted() -> (report: AuthResult)
        ensures
            report.success,
            report.error is None,
            report.lockout_seconds is None,
    {
        AuthResult { success: true, error: None, lockout_seconds: None }
    }

    /// The report of a denial: its text, and the seconds of lockout where
    /// there are any.
    pub fn denied(denial: &Denial) -> (report: AuthResult)
        ensures
            !report.success,
            report.error matches Some(text) && text@ == denial_message(*denial),
            report.lockout_seconds == denial_lockout_seconds(*denial),
    {
        AuthResult {
            success: false,
            error: Some(denial.message()),
            lockout_seconds: denial.lockout_seconds(),
        }
    }
}

impl SetupResult {
    /// The report of a setup that went through, with the recovery phrase
    /// where one was made.
    pub fn created(recovery_key: Option<String>) -> (report: SetupResult)
        ensures
            report.success,
            report.recovery_key == recovery_key,
    {
        SetupResult { success: true, recovery_key }
    }
}

} // verus!
