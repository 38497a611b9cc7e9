//! The unlocked session and the guard that locks authentication out after
//! repeated failures.
//!
//! The guard is a state machine over plain values. Clock readings come in as
//! arguments, and what has to happen to the persisted record goes out as a
//! `LockoutPersist`: the caller reads the clocks, loads the record and carries
//! the action out.

pub mod auth;
pub mod export_import;
pub mod laws;
pub mod messages;

use crate::crypto::keys::SecretKey;
use vstd::prelude::*;

verus! {

/// Number of consecutive failed attempts at which authentication locks.
pub const MAX_FAILED_ATTEMPTS: u32 = 5;

/// Length of the lockout in seconds.
pub const LOCKOUT_DURATION_SECS: u64 = 30;

/// The lockout record as it is persisted: the number of consecutive
/// failures, and the wall-clock time of the last one in seconds since the
/// epoch.
#[derive(Debug, Clone, Copy, PartialEq, Eq, Structural)]
pub struct LockoutData {
    pub failed_attempts: u32,
    pub last_failed_at_epoch: u64,
}

/// What the caller has to do with the persisted lockout record.
#[derive(Debug, Clone, Copy, PartialEq, Eq, Structural)]
pub enum LockoutPersist {
    /// Leave it as it is.
    Keep,
    /// Replace it by this record. A failure to write is ignored.
    Store(LockoutData),
    /// Delete it. A failure to delete is ignored.
    Remove,
}

/// Readings of the two clocks, taken by the caller for one operation.
///
/// The monotonic clock measures the lockout within a process; the wall clock
/// stamps the persisted record, so that a lockout survives a restart.
///
/// When a persisted lockout is taken in, its last failure is placed on the
/// monotonic clock as many seconds before `now` as the wall clock says have
/// passed, but not before 0. The lockout then ends on time only where `now`
/// is at least that many seconds: a monotonic clock that never reads less
/// than `LOCKOUT_DURATION_SECS` is always enough, and `Clock::since_start`
/// makes such readings. With a smaller reading the restored lockout lasts
/// longer than it should, by the seconds that are missing, and never
/// shorter.
#[derive(Debug, Clone, Copy, PartialEq, Eq, Structural)]
pub struct Clock {
    /// The monotonic clock, in seconds.
    pub now: u64,
    /// The wall clock, in seconds since the epoch.
    pub now_epoch: u64,
}

/// The monotonic reading that stands for `elapsed` seconds since the start
/// of the process: one lockout's length above it, so that no reading is
/// smaller than that length.
pub open spec fn reading_since_start(elapsed: u64) -> u64 {
    if elapsed + LOCKOUT_DURATION_SECS <= u64::MAX {
        (elapsed + LOCKOUT_DURATION_SECS) as u64
    } else {
        u64::MAX
    }
}

impl Clock {
    /// The readings of a process that started `elapsed` seconds ago on its
    /// monotonic clock, at the wall-clock time `now_epoch`.
    ///
    /// The monotonic reading is never smaller than `LOCKOUT_DURATION_SECS`:
    /// with readings made here every restored lockout ends on time. It grows
    /// by the second as `elapsed` does.
    pub fn since_start(elapsed: u64, now_epoch: u64) -> (clock: Clock)
        ensures
            clock.now == reading_since_start(elapsed),
            clock.now >= LOCKOUT_DURATION_SECS,
            clock.now_epoch == now_epoch,
    {
        Clock { now: elapsed.saturating_add(LOCKOUT_DURATION_SECS), now_epoch }
    }
}

/// Between two readings made by `Clock::since_start` as many seconds have
/// passed as between the times since the start that they were made of.
pub proof fn lemma_readings_keep_distance(earlier: u64, later: u64)
    requires
        earlier <= later,
        later + LOCKOUT_DURATION_SECS <= u64::MAX,
    ensures
        elapsed_secs(reading_since_start(later), reading_since_start(earlier)) == later - earlier,
{
}

/// The guard's part of the state, as a plain value.
pub struct LockoutState {
    /// Consecutive failed attempts.
    pub failed_attempts: u32,
    /// Reading of the monotonic clock, in seconds, at the last failure.
    pub last_failed_at: Option<u64>,
    /// Whether the persisted record has been taken in.
    pub loaded: bool,
}

/// The session of one process. `dek` and `db` are present only while the
/// vault is unlocked; the remaining fields are the lockout guard.
///
/// `S` is the handle of the opened store.
pub struct AppState<S> {
    /// The database key.
    pub dek: Option<SecretKey>,
    /// The opened store.
    pub db: Option<S>,
    /// Consecutive failed attempts.
    pub failed_attempts: u32,
    /// Reading of the monotonic clock, in seconds, at the last failure.
    pub last_failed_at: Option<u64>,
    /// Whether the persisted lockout record has been taken in.
    pub lockout_loaded: bool,
}

/// Whole seconds from `since` to `now` on the monotonic clock; zero where
/// `since` is not in the past.
pub open spec fn elapsed_secs(now: u64, since: u64) -> u64 {
    if now >= since {
        (now - since) as u64
    } else {
        0
    }
}

/// `now` moved back by `secs`, but not before the clock's origin.
pub open spec fn moved_back(now: u64, secs: u64) -> u64 {
    if now >= secs {
        (now - secs) as u64
    } else {
        0
    }
}

/// The guard that has seen nothing yet.
pub open spec fn fresh_lockout() -> LockoutState {
    LockoutState { failed_attempts: 0, last_failed_at: None, loaded: false }
}

/// The lockout is in force at `now`: the threshold is reached and the last
/// failure is less than the lockout's length ago.
pub open spec fn is_locked(state: LockoutState, now: u64) -> bool {
    &&& state.failed_attempts >= MAX_FAILED_ATTEMPTS
    &&& state.last_failed_at matches Some(at)
    &&& elapsed_secs(now, at) < LOCKOUT_DURATION_SECS
}

/// The lockout has run out at `now`: the threshold is reached and the last
/// failure is at least the lockout's length ago.
pub open spec fn is_expired(state: LockoutState, now: u64) -> bool {
    &&& state.failed_attempts >= MAX_FAILED_ATTEMPTS
    &&& state.last_failed_at matches Some(at)
    &&& elapsed_secs(now, at) >= LOCKOUT_DURATION_SECS
}

/// Seconds of lockout that remain at `now`, or `None` where authentication
/// is open.
pub open spec fn remaining_lockout(state: LockoutState, now: u64) -> Option<u64> {
    if is_locked(state, now) {
        Some((LOCKOUT_DURATION_SECS - elapsed_secs(now, state.last_failed_at->0)) as u64)
    } else {
        None
    }
}

/// The guard after a check at `now`: an expired lockout is cleared, anything
/// else stays.
pub open spec fn after_check(state: LockoutState, now: u64) -> LockoutState {
    if is_expired(state, now) {
        LockoutState { failed_attempts: 0, last_failed_at: None, loaded: state.loaded }
    } else {
        state
    }
}

/// The guard after a failed attempt at `now`.
pub open spec fn after_failure(state: LockoutState, now: u64) -> LockoutState
    recommends
        state.failed_attempts < u32::MAX,
{
    LockoutState {
        failed_attempts: (state.failed_attempts + 1) as u32,
        last_failed_at: Some(now),
        loaded: state.loaded,
    }
}

/// The guard after a successful attempt.
pub open spec fn after_success(state: LockoutState) -> LockoutState {
    LockoutState { failed_attempts: 0, last_failed_at: None, loaded: state.loaded }
}

/// The persisted record still counts at the wall-clock time `now_epoch`: it
/// is below the threshold, or its lockout has not run out yet.
pub open spec fn record_is_live(record: LockoutData, now_epoch: u64) -> bool {
    record.failed_attempts < MAX_FAILED_ATTEMPTS || elapsed_secs(
        now_epoch,
        record.last_failed_at_epoch,
    ) < LOCKOUT_DURATION_SECS
}

/// The guard after the persisted record was taken in. This happens once: a
/// guard that is loaded stays as it is. A record of a lockout that has run
/// out is dropped; any other is adopted, its last failure placed on the
/// monotonic clock as far before `now` as the wall clock says it is, or at 0
/// where `now` is smaller than that (see `Clock`).
pub open spec fn after_load(
    state: LockoutState,
    record: Option<LockoutData>,
    now_epoch: u64,
    now: u64,
) -> LockoutState {
    if state.loaded {
        state
    } else {
        match record {
            Some(data) if record_is_live(data, now_epoch) => LockoutState {
                failed_attempts: data.failed_attempts,
                last_failed_at: Some(
                    moved_back(now, elapsed_secs(now_epoch, data.last_failed_at_epoch)),
                ),
                loaded: true,
            },
            _ => LockoutState {
                failed_attempts: state.failed_attempts,
                last_failed_at: state.last_failed_at,
                loaded: true,
            },
        }
    }
}

/// What taking the persisted record in asks of the caller: a record of a
/// lockout that has run out is deleted.
pub open spec fn load_persist(
    state: LockoutState,
    record: Option<LockoutData>,
    now_epoch: u64,
) -> LockoutPersist {
    match record {
        Some(data) if !state.loaded && !record_is_live(data, now_epoch) => LockoutPersist::Remove,
        _ => LockoutPersist::Keep,
    }
}

/// The later of two actions on the persisted record decides, unless it
/// leaves the record alone.
pub open spec fn then_persist(first: LockoutPersist, second: LockoutPersist) -> LockoutPersist {
    if second == LockoutPersist::Keep {
        first
    } else {
        second
    }
}

/// The seconds of lockout that a check reports once the persisted record
/// was taken in.
pub open spec fn lockout_at_gate(
    lockout: LockoutState,
    record: Option<LockoutData>,
    clock: Clock,
) -> Option<u64> {
    remaining_lockout(after_load(lockout, record, clock.now_epoch, clock.now), clock.now)
}

/// The guard after a check: the persisted record was taken in and an expired
/// lockout cleared.
pub open spec fn lockout_at_entry(
    lockout: LockoutState,
    record: Option<LockoutData>,
    clock: Clock,
) -> LockoutState {
    after_check(after_load(lockout, record, clock.now_epoch, clock.now), clock.now)
}

/// What a check asks of the caller: a record that is dropped on loading, or
/// whose lockout has run out, is deleted.
pub open spec fn persist_at_entry(
    lockout: LockoutState,
    record: Option<LockoutData>,
    clock: Clock,
) -> LockoutPersist {
    then_persist(
        load_persist(lockout, record, clock.now_epoch),
        if is_expired(after_load(lockout, record, clock.now_epoch, clock.now), clock.now) {
            LockoutPersist::Remove
        } else {
            LockoutPersist::Keep
        },
    )
}

/// The guard after the failed attempts at the clock readings `times`, in
/// order.
pub open spec fn after_failures(state: LockoutState, times: Seq<u64>) -> LockoutState
    decreases times.len(),
{
    if times.len() == 0 {
        state
    } else {
        after_failure(after_failures(state, times.drop_last()), times.last())
    }
}

/// Failed attempts only count up and stamp the last one.
pub proof fn lemma_after_failures(state: LockoutState, times: Seq<u64>)
    requires
        state.failed_attempts + times.len() <= u32::MAX,
    ensures
        after_failures(state, times).failed_attempts == state.failed_attempts + times.len(),
        after_failures(state, times).loaded == state.loaded,
        times.len() > 0 ==> after_failures(state, times).last_failed_at == Some(times.last()),
    decreases times.len(),
{
    if times.len() > 0 {
        lemma_after_failures(state, times.drop_last());
    }
}

/// Fewer failures than the threshold never lock: a guard that starts without
/// failures stays open at every time after fewer than `MAX_FAILED_ATTEMPTS`
/// failed attempts.
pub proof fn lemma_open_below_threshold(state: LockoutState, times: Seq<u64>, now: u64)
    requires
        state.failed_attempts == 0,
        times.len() < MAX_FAILED_ATTEMPTS,
    ensures
        remaining_lockout(after_failures(state, times), now) is None,
        after_check(after_failures(state, times), now) == after_failures(state, times),
{
    lemma_after_failures(state, times);
}

/// The threshold locks: after exactly `MAX_FAILED_ATTEMPTS` consecutive
/// failed attempts a check within the lockout's length of the last one
/// reports a positive number of seconds, at most `LOCKOUT_DURATION_SECS`, and
/// changes nothing.
pub proof fn lemma_locked_at_threshold(state: LockoutState, times: Seq<u64>, now: u64)
    requires
        state.failed_attempts == 0,
        times.len() == MAX_FAILED_ATTEMPTS,
        elapsed_secs(now, times.last()) < LOCKOUT_DURATION_SECS,
    ensures
        remaining_lockout(after_failures(state, times), now) == Some(
            (LOCKOUT_DURATION_SECS - elapsed_secs(now, times.last())) as u64,
        ),
        0 < remaining_lockout(after_failures(state, times), now)->0 <= LOCKOUT_DURATION_SECS,
        after_check(after_failures(state, times), now) == after_failures(state, times),
{
    lemma_after_failures(state, times);
}

/// The lockout heals itself: once the lockout's length has passed since the
/// last of `MAX_FAILED_ATTEMPTS` failures, a check reports no lockout and
/// resets the counter to zero, and the next check finds authentication open.
pub proof fn lemma_expired_lockout_resets(state: LockoutState, times: Seq<u64>, now: u64)
    requires
        state.failed_attempts == 0,
        times.len() == MAX_FAILED_ATTEMPTS,
        elapsed_secs(now, times.last()) >= LOCKOUT_DURATION_SECS,
    ensures
        remaining_lockout(after_failures(state, times), now) is None,
        after_check(after_failures(state, times), now).failed_attempts == 0,
        after_check(after_failures(state, times), now).last_failed_at is None,
        forall|later: u64|
            remaining_lockout(
                after_check(after_failures(state, times), now),
                later,
            ) is None,
{
    lemma_after_failures(state, times);
}

/// The counter returns to zero only on success or on an expired lockout
/// seen by a check; a failure never lowers it.
pub proof fn lemma_counter_resets(state: LockoutState, now: u64)
    ensures
        after_success(state).failed_attempts == 0,
        after_check(state, now).failed_attempts == 0 <==> state.failed_attempts == 0
            || is_expired(state, now),
        state.failed_attempts < u32::MAX ==> after_failure(state, now).failed_attempts
            > state.failed_attempts,
{
}

/// A lockout survives a restart: a record of a lockout still in force, taken
/// in by a fresh guard, locks for exactly the seconds that remain on the wall
/// clock, provided the monotonic clock is at least as old as the failure.
pub proof fn lemma_restored_lockout(record: LockoutData, now_epoch: u64, now: u64)
    requires
        record.failed_attempts >= MAX_FAILED_ATTEMPTS,
        elapsed_secs(now_epoch, record.last_failed_at_epoch) < LOCKOUT_DURATION_SECS,
        now >= elapsed_secs(now_epoch, record.last_failed_at_epoch),
    ensures
        remaining_lockout(after_load(fresh_lockout(), Some(record), now_epoch, now), now) == Some(
            (LOCKOUT_DURATION_SECS - elapsed_secs(now_epoch, record.last_failed_at_epoch)) as u64,
        ),
        load_persist(fresh_lockout(), Some(record), now_epoch) == LockoutPersist::Keep,
{
}

/// A monotonic clock that reads at least `LOCKOUT_DURATION_SECS` restores
/// every lockout exactly; with any clock a restored lockout is never shorter
/// than what remains on the wall clock, and never longer than the lockout's
/// length.
pub proof fn lemma_restored_lockout_bounds(record: LockoutData, now_epoch: u64, now: u64)
    requires
        record.failed_attempts >= MAX_FAILED_ATTEMPTS,
        elapsed_secs(now_epoch, record.last_failed_at_epoch) < LOCKOUT_DURATION_SECS,
    ensures
        remaining_lockout(
            after_load(fresh_lockout(), Some(record), now_epoch, now),
            now,
        ) matches Some(seconds) && LOCKOUT_DURATION_SECS - elapsed_secs(
            now_epoch,
            record.last_failed_at_epoch,
        ) <= seconds <= LOCKOUT_DURATION_SECS,
        now >= LOCKOUT_DURATION_SECS ==> remaining_lockout(
            after_load(fresh_lockout(), Some(record), now_epoch, now),
            now,
        ) == Some(
            (LOCKOUT_DURATION_SECS - elapsed_secs(now_epoch, record.last_failed_at_epoch)) as u64,
        ),
{
}

/// With readings made by `Clock::since_start` a restored lockout lasts
/// exactly as long as remains of it on the wall clock.
pub proof fn lemma_restored_lockout_since_start(
    record: LockoutData,
    elapsed: u64,
    now_epoch: u64,
)
    requires
        record.failed_attempts >= MAX_FAILED_ATTEMPTS,
        elapsed_secs(now_epoch, record.last_failed_at_epoch) < LOCKOUT_DURATION_SECS,
    ensures
        lockout_at_gate(
            fresh_lockout(),
            Some(record),
            Clock { now: reading_since_start(elapsed), now_epoch },
        ) == Some(
            (LOCKOUT_DURATION_SECS - elapsed_secs(now_epoch, record.last_failed_at_epoch)) as u64,
        ),
{
    lemma_restored_lockout_bounds(record, now_epoch, reading_since_start(elapsed));
}

/// A record of a lockout that has run out is dropped and deleted.
pub proof fn lemma_stale_record_dropped(record: LockoutData, now_epoch: u64, now: u64)
    requires
        record.failed_attempts >= MAX_FAILED_ATTEMPTS,
        elapsed_secs(now_epoch, record.last_failed_at_epoch) >= LOCKOUT_DURATION_SECS,
    ensures
        after_load(fresh_lockout(), Some(record), now_epoch, now).failed_attempts == 0,
        load_persist(fresh_lockout(), Some(record), now_epoch) == LockoutPersist::Remove,
{
}

impl<S> AppState<S> {
    /// The guard's part of the state.
    pub open spec fn lockout(&self) -> LockoutState {
        LockoutState {
            failed_attempts: self.failed_attempts,
            last_failed_at: self.last_failed_at,
            loaded: self.lockout_loaded,
        }
    }

    /// The vault is unlocked: key and store are both present.
    pub open spec fn unlocked(&self) -> bool {
        self.dek is Some && self.db is Some
    }

    /// Whoever has failed has a time of failure. Every operation keeps this.
    pub open spec fn wf(&self) -> bool {
        self.failed_attempts > 0 ==> self.last_failed_at is Some
    }

    /// Whether the guard is well-formed, as the operations that count
    /// failures require of it.
    pub fn is_well_formed(&self) -> (well_formed: bool)
        ensures
            well_formed == self.wf(),
    {
        self.failed_attempts == 0 || self.last_failed_at.is_some()
    }

    /// The session at process start: locked, no failures, record not loaded.
    pub fn new() -> (state: Self)
        ensures
            state.dek is None,
            state.db is None,
            state.lockout() == fresh_lockout(),
            state.wf(),
    {
        AppState {
            dek: None,
            db: None,
            failed_attempts: 0,
            last_failed_at: None,
            lockout_loaded: false,
        }
    }

    /// Whether the vault is unlocked.
    pub fn is_unlocked(&self) -> (unlocked: bool)
        ensures
            unlocked == self.unlocked(),
    {
        self.dek.is_some() && self.db.is_some()
    }

    /// Discards key and store handle. The key's bytes are wiped as it drops.
    /// The guard is untouched.
    pub fn lock(&mut self)
        ensures
            final(self).dek is None,
            final(self).db is None,
            final(self).lockout() == old(self).lockout(),
    {
        self.dek = None;
        self.db = None;
    }

    /// Takes the persisted record in, once: later calls change nothing.
    ///
    /// `record` is what the persisted record holds, `None` where there is
    /// none or it cannot be decoded. It is looked at only by the first call
    /// of this, `check_lockout` or `record_failed_attempt` on a session.
    pub fn ensure_lockout_loaded(&mut self, record: Option<LockoutData>, clock: &Clock) -> (persist:
        LockoutPersist)
        ensures
            final(self).lockout() == after_load(
                old(self).lockout(),
                record,
                clock.now_epoch,
                clock.now,
            ),
            persist == load_persist(old(self).lockout(), record, clock.now_epoch),
            final(self).dek == old(self).dek,
            final(self).db == old(self).db,
            old(self).wf() ==> final(self).wf(),
    {
        if self.lockout_loaded {
            return LockoutPersist::Keep;
        }
        self.lockout_loaded = true;
        match record {
            None => LockoutPersist::Keep,
            Some(data) => {
                let elapsed = clock.now_epoch.saturating_sub(data.last_failed_at_epoch);
                if data.failed_attempts >= MAX_FAILED_ATTEMPTS && elapsed
                    >= LOCKOUT_DURATION_SECS {
                    LockoutPersist::Remove
                } else {
                    self.failed_attempts = data.failed_attempts;
                    self.last_failed_at = Some(clock.now.saturating_sub(elapsed));
                    LockoutPersist::Keep
                }
            },
        }
    }

    /// Counts a failed attempt: the persisted record is taken in if it was
    /// not yet, the counter goes up by one, and the failure is stamped with
    /// the monotonic clock. Returns the record to persist, stamped with the
    /// wall clock.
    pub fn record_failed_attempt(&mut self, record: Option<LockoutData>, clock: &Clock) -> (persist:
        LockoutPersist)
        requires
            after_load(
                old(self).lockout(),
                record,
                clock.now_epoch,
                clock.now,
            ).failed_attempts < u32::MAX,
        ensures
            final(self).lockout() == after_failure(
                after_load(old(self).lockout(), record, clock.now_epoch, clock.now),
                clock.now,
            ),
            persist == LockoutPersist::Store(
                LockoutData {
                    failed_attempts: final(self).failed_attempts,
                    last_failed_at_epoch: clock.now_epoch,
                },
            ),
            final(self).dek == old(self).dek,
            final(self).db == old(self).db,
            final(self).wf(),
    {
        self.ensure_lockout_loaded(record, clock);
        self.failed_attempts += 1;
        self.last_failed_at = Some(clock.now);
        LockoutPersist::Store(
            LockoutData {
                failed_attempts: self.failed_attempts,
                last_failed_at_epoch: clock.now_epoch,
            },
        )
    }

    /// Clears the counter after a successful attempt. The persisted record is
    /// to be deleted.
    pub fn reset_failed_attempts(&mut self) -> (persist: LockoutPersist)
        ensures
            final(self).lockout() == after_success(old(self).lockout()),
            persist == LockoutPersist::Remove,
            final(self).dek == old(self).dek,
            final(self).db == old(self).db,
            final(self).wf(),
    {
        self.failed_attempts = 0;
        self.last_failed_at = None;
        LockoutPersist::Remove
    }

    /// Reports the seconds of lockout that remain, or `None` where
    /// authentication is open. The persisted record is taken in if it was not
    /// yet. A lockout that has run out is cleared, and its persisted record is
    /// to be deleted: no separate reset is needed.
    pub fn check_lockout(&mut self, record: Option<LockoutData>, clock: &Clock) -> (status: (
        Option<u64>,
        LockoutPersist,
    ))
        ensures
            status.0 == lockout_at_gate(old(self).lockout(), record, *clock),
            status.1 == persist_at_entry(old(self).lockout(), record, *clock),
            final(self).lockout() == lockout_at_entry(old(self).lockout(), record, *clock),
            final(self).dek == old(self).dek,
            final(self).db == old(self).db,
            old(self).wf() ==> final(self).wf(),
    {
        let loaded = self.ensure_lockout_loaded(record, clock);
        if self.failed_attempts >= MAX_FAILED_ATTEMPTS {
            if let Some(last_failed) = self.last_failed_at {
                let elapsed = clock.now.saturating_sub(last_failed);
                if elapsed < LOCKOUT_DURATION_SECS {
                    return (Some(LOCKOUT_DURATION_SECS - elapsed), loaded);
                }
                let persist = self.reset_failed_attempts();
                return (None, persist);
            }
        }
        (None, loaded)
    }
}

impl<S> Default for AppState<S> {
    fn default() -> (state: Self)
        ensures
            state.dek is None,
            state.db is None,
            state.lockout() == fresh_lockout(),
    {
        AppState::new()
    }
}

} // verus!
