//! What holds of the lifecycle as a whole: across setup, unlock, password
//! change, recovery and the lockout.

use super::auth::{
    attempts_left, change_gate, recover_gate, unlock_transition, Denial, Outcome, VaultFiles,
    MIN_PASSWORD_LENGTH,
};
use super::{
    after_load, elapsed_secs, lockout_at_entry, lockout_at_gate, Clock, LockoutData,
    LockoutPersist, LockoutState, LOCKOUT_DURATION_SECS, MAX_FAILED_ATTEMPTS,
};
use crate::crypto::wrapping::{recovers_to, unlocks_to, unwrapped_with_password, Fault};
use vstd::prelude::*;

verus! {

/// Unlocking grants the stored key: where no lockout is in force and the
/// store is there, the password that the stored pair belongs to is granted
/// the database key, as after setup.
pub proof fn lemma_unlock_grants_stored_key(
    lockout: LockoutState,
    password: Seq<u8>,
    files: VaultFiles,
    record: Option<LockoutData>,
    clock: Clock,
    dek: Seq<u8>,
)
    ensures
        ({
            &&& lockout_at_gate(lockout, record, clock) is None
            &&& files.store_exists
            &&& files.salt matches Some(salt) && files.wrapped_dek matches Some(wrapped)
                && unlocks_to(password, salt@, wrapped@, dek)
        }) ==> unlock_transition(lockout, password, files, record, clock).attempt
            == Outcome::<Seq<u8>>::Granted(dek),
{
}

/// A password change keeps the database key: the pair that a change hands
/// out unwraps, under the new password, to the key that the old pair
/// unwrapped to under the current one.
pub proof fn lemma_password_change_keeps_dek(
    current_password: Seq<u8>,
    new_password: Seq<u8>,
    files: VaultFiles,
    new_salt: Vec<u8>,
    new_wrapped: Vec<u8>,
    dek: Seq<u8>,
)
    ensures
        ({
            &&& change_gate(true, current_password, new_password, files) == Outcome::<
                Seq<u8>,
            >::Granted(dek)
            &&& unlocks_to(new_password, new_salt@, new_wrapped@, dek)
        }) ==> {
            &&& unwrapped_with_password(current_password, files.salt, files.wrapped_dek) == Ok::<
                Seq<u8>,
                Fault,
            >(dek)
            &&& unwrapped_with_password(new_password, Some(new_salt), Some(new_wrapped)) == Ok::<
                Seq<u8>,
                Fault,
            >(dek)
        },
{
}

/// Recovery grants the wrapped key: where no lockout is in force and the new
/// password is long enough, the phrase that the recovery wrapping belongs to
/// is granted the database key.
pub proof fn lemma_recovery_grants_wrapped_key(
    lockout: LockoutState,
    phrase: Seq<char>,
    new_password: Seq<u8>,
    files: VaultFiles,
    record: Option<LockoutData>,
    clock: Clock,
    dek: Seq<u8>,
)
    ensures
        ({
            &&& lockout_at_gate(lockout, record, clock) is None
            &&& new_password.len() >= MIN_PASSWORD_LENGTH
            &&& files.recovery_wrapped_dek matches Some(wrapped) && recovers_to(
                phrase,
                wrapped@,
                dek,
            )
        }) ==> recover_gate(lockout, phrase, new_password, files, record, clock).attempt
            == Outcome::<Seq<u8>>::Granted(dek),
{
}

/// A lockout refuses every credential: while it is in force, unlocking and
/// recovery are refused with the seconds that remain, between one and
/// `LOCKOUT_DURATION_SECS`, whatever password or phrase is offered, and the
/// attempt is not counted.
pub proof fn lemma_lockout_refuses_every_credential(
    lockout: LockoutState,
    password: Seq<u8>,
    phrase: Seq<char>,
    files: VaultFiles,
    record: Option<LockoutData>,
    clock: Clock,
)
    ensures
        lockout_at_gate(lockout, record, clock) matches Some(seconds) ==> {
            &&& 0 < seconds <= LOCKOUT_DURATION_SECS
            &&& unlock_transition(lockout, password, files, record, clock).attempt == Outcome::<
                Seq<u8>,
            >::Denied(Denial::LockedOut { seconds })
            &&& recover_gate(lockout, phrase, password, files, record, clock).attempt
                == Outcome::<Seq<u8>>::Denied(Denial::LockedOut { seconds })
            &&& unlock_transition(lockout, password, files, record, clock).lockout == after_load(
                lockout,
                record,
                clock.now_epoch,
                clock.now,
            )
        },
{
}

/// A wrong password is counted, and the one that reaches the threshold
/// locks: the denial then tells that no attempt is left, and every unlock
/// within the lockout's length is refused.
pub proof fn lemma_wrong_password_is_counted(
    lockout: LockoutState,
    password: Seq<u8>,
    files: VaultFiles,
    record: Option<LockoutData>,
    clock: Clock,
    later: Clock,
)
    ensures
        ({
            &&& lockout_at_gate(lockout, record, clock) is None
            &&& files.store_exists
            &&& unwrapped_with_password(password, files.salt, files.wrapped_dek) == Err::<
                Seq<u8>,
                Fault,
            >(Fault::NotAuthentic)
            &&& lockout_at_entry(lockout, record, clock).failed_attempts < u32::MAX
        }) ==> ({
            let entry = lockout_at_entry(lockout, record, clock);
            let after = unlock_transition(lockout, password, files, record, clock);
            &&& after.lockout.failed_attempts == entry.failed_attempts + 1
            &&& after.attempt == Outcome::<Seq<u8>>::Denied(
                Denial::WrongPassword {
                    attempts_left: attempts_left(after.lockout.failed_attempts),
                },
            )
            &&& after.persist == LockoutPersist::Store(
                LockoutData {
                    failed_attempts: after.lockout.failed_attempts,
                    last_failed_at_epoch: clock.now_epoch,
                },
            )
            &&& entry.failed_attempts + 1 >= MAX_FAILED_ATTEMPTS && elapsed_secs(
                later.now,
                clock.now,
            ) < LOCKOUT_DURATION_SECS ==> lockout_at_gate(after.lockout, None, later) is Some
        }),
{
}

/// The guard after an unlock with `password`.
pub open spec fn lockout_after_unlock(
    lockout: LockoutState,
    password: Seq<u8>,
    files: VaultFiles,
    clock: Clock,
) -> LockoutState {
    unlock_transition(lockout, password, files, None, clock).lockout
}

/// Five wrong passwords lock the vault, and the lockout heals itself.
///
/// After `MAX_FAILED_ATTEMPTS` unlocks in a row with a password that the
/// stored pair does not belong to, starting from a guard without failures,
/// the next unlock is refused whatever the password, also the right one, for
/// as long as the fifth failure is less than `LOCKOUT_DURATION_SECS` ago, with
/// the seconds that remain. Once that time has passed, the right password is
/// granted the key and the counter is back at zero.
pub proof fn lemma_five_wrong_passwords_lock(
    start: LockoutState,
    wrong_password: Seq<u8>,
    password: Seq<u8>,
    files: VaultFiles,
    first: Clock,
    second: Clock,
    third: Clock,
    fourth: Clock,
    fifth: Clock,
    later: Clock,
    dek: Seq<u8>,
)
    requires
        start.failed_attempts == 0,
        start.loaded,
        files.store_exists,
    ensures
        ({
            &&& unwrapped_with_password(wrong_password, files.salt, files.wrapped_dek) == Err::<
                Seq<u8>,
                Fault,
            >(Fault::NotAuthentic)
            &&& unwrapped_with_password(password, files.salt, files.wrapped_dek) == Ok::<
                Seq<u8>,
                Fault,
            >(dek)
        }) ==> ({
            let locked = lockout_after_unlock(
                lockout_after_unlock(
                    lockout_after_unlock(
                        lockout_after_unlock(
                            lockout_after_unlock(start, wrong_password, files, first),
                            wrong_password,
                            files,
                            second,
                        ),
                        wrong_password,
                        files,
                        third,
                    ),
                    wrong_password,
                    files,
                    fourth,
                ),
                wrong_password,
                files,
                fifth,
            );
            let since = elapsed_secs(later.now, fifth.now);
            let next = unlock_transition(locked, password, files, None, later);
            &&& locked.failed_attempts == MAX_FAILED_ATTEMPTS
            &&& since < LOCKOUT_DURATION_SECS ==> next.attempt == Outcome::<Seq<u8>>::Denied(
                Denial::LockedOut { seconds: (LOCKOUT_DURATION_SECS - since) as u64 },
            ) && next.lockout == locked
            &&& since >= LOCKOUT_DURATION_SECS ==> next.attempt == Outcome::<Seq<u8>>::Granted(dek)
                && next.lockout.failed_attempts == 0 && next.persist == LockoutPersist::Remove
        }),
{
    if unwrapped_with_password(wrong_password, files.salt, files.wrapped_dek) == Err::<
        Seq<u8>,
        Fault,
    >(Fault::NotAuthentic) {
        let one = lockout_after_unlock(start, wrong_password, files, first);
        assert(one.failed_attempts == 1 && one.loaded);
        let two = lockout_after_unlock(one, wrong_password, files, second);
        assert(two.failed_attempts == 2 && two.loaded);
        let three = lockout_after_unlock(two, wrong_password, files, third);
        assert(three.failed_attempts == 3 && three.loaded);
        let four = lockout_after_unlock(three, wrong_password, files, fourth);
        assert(four.failed_attempts == 4 && four.loaded);
        let five = lockout_after_unlock(four, wrong_password, files, fifth);
        assert(five.failed_attempts == 5 && five.loaded && five.last_failed_at == Some(fifth.now));
    }
}

} // verus!
