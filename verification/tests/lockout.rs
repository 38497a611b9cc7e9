//! The lockout guard on concrete clock readings.

use knot::commands::{
    AppState, Clock, LockoutData, LockoutPersist, LOCKOUT_DURATION_SECS, MAX_FAILED_ATTEMPTS,
};

/// A reading of the monotonic clock, in seconds.
const NOW: u64 = 10_000;

/// A reading of the wall clock, in seconds since the epoch.
const NOW_EPOCH: u64 = 1_700_000_000;

/// Both clocks, `secs` seconds after `NOW` and `NOW_EPOCH`.
fn at(secs: u64) -> Clock {
    Clock { now: NOW + secs, now_epoch: NOW_EPOCH + secs }
}

fn loaded_state() -> AppState<()> {
    let mut state = AppState::new();
    state.lockout_loaded = true;
    state
}

#[test]
fn test_app_state_record_and_reset() {
    let mut state: AppState<()> = AppState::new();
    state.lockout_loaded = true; // skip file loading in test

    assert_eq!(state.failed_attempts, 0);
    assert!(state.last_failed_at.is_none());

    state.failed_attempts += 1;
    state.last_failed_at = Some(NOW);

    assert_eq!(state.failed_attempts, 1);
    assert!(state.last_failed_at.is_some());

    state.failed_attempts = 0;
    state.last_failed_at = None;

    assert_eq!(state.failed_attempts, 0);
    assert!(state.last_failed_at.is_none());
}

#[test]
fn test_check_lockout_not_at_threshold() {
    let mut state: AppState<()> = AppState::new();
    state.lockout_loaded = true;
    state.failed_attempts = 3;
    state.last_failed_at = Some(NOW);

    assert!(state.check_lockout(None, &at(0)).0.is_none());
}

#[test]
fn test_check_lockout_at_threshold_active() {
    let mut state: AppState<()> = AppState::new();
    state.lockout_loaded = true;
    state.failed_attempts = MAX_FAILED_ATTEMPTS;
    state.last_failed_at = Some(NOW);

    let remaining = state.check_lockout(None, &at(0)).0;
    assert!(remaining.is_some());
    assert!(remaining.unwrap() <= LOCKOUT_DURATION_SECS);
}

#[test]
fn test_check_lockout_at_threshold_expired() {
    let mut state: AppState<()> = AppState::new();
    state.lockout_loaded = true;
    state.failed_attempts = MAX_FAILED_ATTEMPTS;
    // Set last_failed_at to past beyond lockout duration
    state.last_failed_at = Some(NOW - (LOCKOUT_DURATION_SECS + 1));

    assert!(state.check_lockout(None, &at(0)).0.is_none());
    assert_eq!(state.failed_attempts, 0);
    assert!(state.last_failed_at.is_none());
}

#[test]
fn new_state_is_locked_and_clean() {
    let state: AppState<()> = AppState::new();
    assert!(state.dek.is_none());
    assert!(state.db.is_none());
    assert!(!state.is_unlocked());
    assert_eq!(state.failed_attempts, 0);
    assert_eq!(state.last_failed_at, None);
    assert!(!state.lockout_loaded);

    let by_default: AppState<()> = AppState::default();
    assert!(!by_default.is_unlocked());
    assert_eq!(by_default.failed_attempts, 0);
    assert!(!by_default.lockout_loaded);
}

#[test]
fn each_failure_counts_and_is_persisted() {
    let mut state = loaded_state();
    for n in 1..=4u32 {
        let persist = state.record_failed_attempt(None, &at(n as u64));
        assert_eq!(
            persist,
            LockoutPersist::Store(LockoutData {
                failed_attempts: n,
                last_failed_at_epoch: NOW_EPOCH + n as u64,
            })
        );
        assert_eq!(state.failed_attempts, n);
        assert_eq!(state.last_failed_at, Some(NOW + n as u64));
        assert_eq!(state.check_lockout(None, &at(n as u64)), (None, LockoutPersist::Keep));
    }
}

#[test]
fn five_failures_lock_for_thirty_seconds() {
    let mut state = loaded_state();
    for _ in 0..5 {
        state.record_failed_attempt(None, &at(0));
    }
    assert_eq!(state.failed_attempts, 5);
    assert_eq!(state.check_lockout(None, &at(0)), (Some(30), LockoutPersist::Keep));
    assert_eq!(state.check_lockout(None, &at(1)), (Some(29), LockoutPersist::Keep));
    assert_eq!(state.check_lockout(None, &at(29)), (Some(1), LockoutPersist::Keep));
    // A check while locked changes nothing.
    assert_eq!(state.failed_attempts, 5);
    assert_eq!(state.last_failed_at, Some(NOW));
}

#[test]
fn expired_lockout_resets_counter_and_record() {
    let mut state = loaded_state();
    for _ in 0..5 {
        state.record_failed_attempt(None, &at(0));
    }
    assert_eq!(state.check_lockout(None, &at(30)), (None, LockoutPersist::Remove));
    assert_eq!(state.failed_attempts, 0);
    assert_eq!(state.last_failed_at, None);
    // The next check finds nothing to do.
    assert_eq!(state.check_lockout(None, &at(30)), (None, LockoutPersist::Keep));
}

#[test]
fn clock_before_last_failure_counts_as_no_time_passed() {
    let mut state = loaded_state();
    state.failed_attempts = 5;
    state.last_failed_at = Some(NOW + 100);
    assert_eq!(state.check_lockout(None, &at(0)), (Some(30), LockoutPersist::Keep));
}

#[test]
fn threshold_without_time_of_failure_is_open() {
    let mut state = loaded_state();
    state.failed_attempts = 7;
    state.last_failed_at = None;
    assert_eq!(state.check_lockout(None, &at(0)), (None, LockoutPersist::Keep));
    assert_eq!(state.failed_attempts, 7);
}

#[test]
fn success_clears_the_guard() {
    let mut state = loaded_state();
    state.record_failed_attempt(None, &at(0));
    state.record_failed_attempt(None, &at(0));
    assert_eq!(state.reset_failed_attempts(), LockoutPersist::Remove);
    assert_eq!(state.failed_attempts, 0);
    assert_eq!(state.last_failed_at, None);
    assert!(state.lockout_loaded);
}

#[test]
fn live_lockout_survives_restart() {
    let mut state: AppState<()> = AppState::new();
    let record = LockoutData { failed_attempts: 5, last_failed_at_epoch: NOW_EPOCH - 12 };
    let persist = state.ensure_lockout_loaded(Some(record), &at(0));
    assert_eq!(persist, LockoutPersist::Keep);
    assert!(state.lockout_loaded);
    assert_eq!(state.failed_attempts, 5);
    assert_eq!(state.last_failed_at, Some(NOW - 12));
    assert_eq!(state.check_lockout(None, &at(0)), (Some(18), LockoutPersist::Keep));
}

#[test]
fn stale_lockout_is_dropped_on_restart() {
    let mut state: AppState<()> = AppState::new();
    let record = LockoutData { failed_attempts: 5, last_failed_at_epoch: NOW_EPOCH - 30 };
    let persist = state.ensure_lockout_loaded(Some(record), &at(0));
    assert_eq!(persist, LockoutPersist::Remove);
    assert!(state.lockout_loaded);
    assert_eq!(state.failed_attempts, 0);
    assert_eq!(state.last_failed_at, None);
    assert_eq!(state.check_lockout(None, &at(0)), (None, LockoutPersist::Keep));
}

#[test]
fn failures_below_threshold_survive_restart() {
    let mut state: AppState<()> = AppState::new();
    let record = LockoutData { failed_attempts: 3, last_failed_at_epoch: NOW_EPOCH - 500 };
    let persist = state.ensure_lockout_loaded(Some(record), &at(0));
    assert_eq!(persist, LockoutPersist::Keep);
    assert_eq!(state.failed_attempts, 3);
    assert_eq!(state.last_failed_at, Some(NOW - 500));
    assert_eq!(state.check_lockout(None, &at(0)), (None, LockoutPersist::Keep));
    // Two more failures reach the threshold.
    state.record_failed_attempt(None, &at(1));
    let persist = state.record_failed_attempt(None, &at(2));
    assert_eq!(
        persist,
        LockoutPersist::Store(LockoutData { failed_attempts: 5, last_failed_at_epoch: NOW_EPOCH + 2 })
    );
    assert_eq!(state.check_lockout(None, &at(2)), (Some(30), LockoutPersist::Keep));
}

#[test]
fn record_is_taken_in_only_once() {
    let mut state: AppState<()> = AppState::new();
    assert_eq!(state.ensure_lockout_loaded(None, &at(0)), LockoutPersist::Keep);
    assert!(state.lockout_loaded);
    let record = LockoutData { failed_attempts: 5, last_failed_at_epoch: NOW_EPOCH };
    assert_eq!(state.ensure_lockout_loaded(Some(record), &at(0)), LockoutPersist::Keep);
    assert_eq!(state.failed_attempts, 0);
    assert_eq!(state.last_failed_at, None);
}

#[test]
fn record_from_the_future_counts_as_just_made() {
    let mut state: AppState<()> = AppState::new();
    let record = LockoutData { failed_attempts: 6, last_failed_at_epoch: NOW_EPOCH + 1_000 };
    assert_eq!(state.ensure_lockout_loaded(Some(record), &at(0)), LockoutPersist::Keep);
    assert_eq!(state.failed_attempts, 6);
    assert_eq!(state.last_failed_at, Some(NOW));
    assert_eq!(state.check_lockout(None, &at(0)), (Some(30), LockoutPersist::Keep));
}

#[test]
fn restored_failure_is_not_placed_before_the_clock_origin() {
    let mut state: AppState<()> = AppState::new();
    let record = LockoutData { failed_attempts: 5, last_failed_at_epoch: NOW_EPOCH - 20 };
    assert_eq!(state.ensure_lockout_loaded(Some(record), &Clock { now: 5, now_epoch: NOW_EPOCH }), LockoutPersist::Keep);
    assert_eq!(state.last_failed_at, Some(0));
    assert_eq!(state.check_lockout(None, &Clock { now: 5, now_epoch: NOW_EPOCH }), (Some(25), LockoutPersist::Keep));
}

#[test]
fn lock_keeps_the_guard() {
    let mut state = loaded_state();
    state.db = Some(());
    state.dek = Some(knot::crypto::keys::generate_dek());
    assert!(state.is_unlocked());
    state.record_failed_attempt(None, &at(0));
    state.lock();
    assert!(!state.is_unlocked());
    assert!(state.dek.is_none());
    assert!(state.db.is_none());
    assert_eq!(state.failed_attempts, 1);
    assert_eq!(state.last_failed_at, Some(NOW));
}

#[test]
fn key_alone_or_store_alone_is_not_unlocked() {
    let mut state = loaded_state();
    state.db = Some(());
    assert!(!state.is_unlocked());
    state.db = None;
    state.dek = Some(knot::crypto::keys::generate_dek());
    assert!(!state.is_unlocked());
}

#[test]
fn first_use_takes_the_record_in() {
    // A check on a session that has not loaded yet adopts the record.
    let mut state: AppState<()> = AppState::new();
    let record = LockoutData { failed_attempts: 5, last_failed_at_epoch: NOW_EPOCH - 10 };
    assert_eq!(state.check_lockout(Some(record), &at(0)), (Some(20), LockoutPersist::Keep));
    assert!(state.lockout_loaded);

    // So does a failure: it counts on from the persisted number.
    let mut state: AppState<()> = AppState::new();
    let record = LockoutData { failed_attempts: 3, last_failed_at_epoch: NOW_EPOCH - 10 };
    let persist = state.record_failed_attempt(Some(record), &at(0));
    assert_eq!(
        persist,
        LockoutPersist::Store(LockoutData { failed_attempts: 4, last_failed_at_epoch: NOW_EPOCH })
    );
    assert_eq!(state.failed_attempts, 4);
    assert_eq!(state.last_failed_at, Some(NOW));
    assert!(state.lockout_loaded);

    // A stale record is deleted by the check that finds it.
    let mut state: AppState<()> = AppState::new();
    let record = LockoutData { failed_attempts: 5, last_failed_at_epoch: NOW_EPOCH - 31 };
    assert_eq!(state.check_lockout(Some(record), &at(0)), (None, LockoutPersist::Remove));
    assert_eq!(state.failed_attempts, 0);
}

#[test]
fn readings_since_start_never_fall_below_the_lockout() {
    assert_eq!(Clock::since_start(0, NOW_EPOCH), Clock { now: 30, now_epoch: NOW_EPOCH });
    assert_eq!(Clock::since_start(7, 0), Clock { now: 37, now_epoch: 0 });
    assert_eq!(Clock::since_start(u64::MAX, 1).now, u64::MAX);
    assert_eq!(Clock::since_start(u64::MAX - 30, 1).now, u64::MAX);
    assert_eq!(Clock::since_start(u64::MAX - 31, 1).now, u64::MAX - 1);
}

#[test]
fn lockout_restored_at_startup_ends_on_time() {
    // Twenty seconds after the failure, right at the start of the process:
    // ten seconds remain, not more.
    let mut state: AppState<()> = AppState::new();
    let record = LockoutData { failed_attempts: 5, last_failed_at_epoch: NOW_EPOCH - 20 };
    let start = Clock::since_start(0, NOW_EPOCH);
    assert_eq!(state.check_lockout(Some(record), &start), (Some(10), LockoutPersist::Keep));
    assert_eq!(state.last_failed_at, Some(10));
    let later = Clock::since_start(9, NOW_EPOCH + 9);
    assert_eq!(state.check_lockout(None, &later), (Some(1), LockoutPersist::Keep));
    let over = Clock::since_start(10, NOW_EPOCH + 10);
    assert_eq!(state.check_lockout(None, &over), (None, LockoutPersist::Remove));
    assert_eq!(state.failed_attempts, 0);
}
