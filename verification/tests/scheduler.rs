use spyrun::cache::{LimitCache, MutexKeys};
use spyrun::schedule::{
    acquire_mutex, apply_throttle, begin_invocation, debounce_check, debounce_stamp,
    finish_invocation, release_mutex, resume_invocation, ScheduleStep,
};

#[test]
fn test_throttle_window_one_proceeds() {
    let mut cache = LimitCache::new();
    let times: Vec<u64> = vec![0, 100, 200];
    let mut skips: Vec<bool> = Vec::new();
    for t in times {
        skips.push(apply_throttle(&mut cache, "test_throttle", 1000, t));
    }
    let executed = skips.iter().filter(|s| !**s).count();
    let skipped = skips.iter().filter(|s| **s).count();
    assert_eq!(executed, 1, "Exactly one command should have been executed");
    assert_eq!(skipped, 2, "Remaining commands should have been skipped by throttle");
    assert!(!skips[0], "the first arrival proceeds under throttle");
}

#[test]
fn test_throttle_short_window() {
    let mut cache = LimitCache::new();
    let mut skips: Vec<bool> = Vec::new();
    for t in [0u64, 100, 200] {
        skips.push(apply_throttle(&mut cache, "test_short_throttle", 500, t));
    }
    assert_eq!(skips, vec![false, true, true]);
    // After the window passes, the next arrival proceeds again.
    assert!(!apply_throttle(&mut cache, "test_short_throttle", 500, 600));
}

#[test]
fn test_throttle_zero_disabled() {
    let mut cache = LimitCache::new();
    assert!(!apply_throttle(&mut cache, "k", 0, 0));
    assert!(!apply_throttle(&mut cache, "k", 0, 0));
}

#[test]
fn test_throttle_distinct_keys_independent() {
    let mut cache = LimitCache::new();
    assert!(!apply_throttle(&mut cache, "a", 1000, 0));
    assert!(!apply_throttle(&mut cache, "b", 1000, 10));
    assert!(apply_throttle(&mut cache, "a", 1000, 20));
}

#[test]
fn test_debounce_trailing_edge_last_proceeds() {
    let mut cache = LimitCache::new();
    let times: Vec<u64> = vec![0, 100, 200];
    // Every arrival stamps before any of them wakes from its 500 ms sleep.
    for t in &times {
        debounce_stamp(&mut cache, "test_debounce", *t);
    }
    let skips: Vec<bool> = times
        .iter()
        .map(|t| debounce_check(&cache, "test_debounce", *t))
        .collect();
    let executed = skips.iter().filter(|s| !**s).count();
    let skipped = skips.iter().filter(|s| **s).count();
    assert_eq!(executed, 1, "Exactly one command should have been executed");
    assert_eq!(skipped, 2, "Remaining commands should have been skipped by debounce");
    assert!(!skips[2], "the last arrival proceeds under debounce");
}

#[test]
fn test_debounce_short_window() {
    let mut cache = LimitCache::new();
    // Arrivals at 0 and 50 ms with a 100 ms window: the first wakes at 100 ms,
    // after the second stamped, so only the second proceeds.
    debounce_stamp(&mut cache, "test_short_debounce", 0);
    debounce_stamp(&mut cache, "test_short_debounce", 50);
    assert!(debounce_check(&cache, "test_short_debounce", 0));
    assert!(!debounce_check(&cache, "test_short_debounce", 50));
}

#[test]
fn test_debounce_gap_larger_than_window() {
    let mut cache = LimitCache::new();
    // The second arrival comes after the first already woke: both proceed.
    debounce_stamp(&mut cache, "k", 0);
    assert!(!debounce_check(&cache, "k", 0));
    debounce_stamp(&mut cache, "k", 700);
    assert!(!debounce_check(&cache, "k", 700));
}

#[test]
fn test_mutex_contention_one_holder() {
    let mut held = MutexKeys::new();
    let mut acquired: Vec<bool> = Vec::new();
    for _ in 0..5 {
        acquired.push(acquire_mutex(&mut held, "my_shared_mutexkey"));
    }
    let executed = acquired.iter().filter(|a| **a).count();
    let skipped = acquired.iter().filter(|a| !**a).count();
    assert_eq!(executed, 1, "Exactly one command should have been executed");
    assert_eq!(skipped, 4, "Remaining commands should have been skipped by mutex");
    assert!(acquired[0]);
    // Once the holder releases, the key can be taken again.
    release_mutex(&mut held, "my_shared_mutexkey");
    assert!(acquire_mutex(&mut held, "my_shared_mutexkey"));
}

#[test]
fn test_mutex_empty_key_disabled() {
    let mut held = MutexKeys::new();
    // An empty key always proceeds and never blocks anyone.
    assert!(acquire_mutex(&mut held, ""));
    assert!(acquire_mutex(&mut held, ""));
    release_mutex(&mut held, "");
    assert!(acquire_mutex(&mut held, "shared"));
    assert!(acquire_mutex(&mut held, ""));
}

#[test]
fn test_both_windows_zero_executes() {
    let mut dt = LimitCache::new();
    let mut mx = MutexKeys::new();
    let step = begin_invocation(&mut dt, &mut mx, "limit", "", 0, 0, 0);
    assert_eq!(step, ScheduleStep::Execute);
    finish_invocation(&mut mx, "");
    // And it stays that way on repeated arrivals: no rate limit applies.
    let step = begin_invocation(&mut dt, &mut mx, "limit", "", 0, 0, 1);
    assert_eq!(step, ScheduleStep::Execute);
}

#[test]
fn test_debounce_wins_over_throttle() {
    let mut dt = LimitCache::new();
    let mut mx = MutexKeys::new();
    let step = begin_invocation(&mut dt, &mut mx, "k", "", 500, 1000, 7);
    assert_eq!(step, ScheduleStep::Wait { window_ms: 500, stamp: 7 });
}

#[test]
fn test_begin_resume_superseded() {
    let mut dt = LimitCache::new();
    let mut mx = MutexKeys::new();
    let first = begin_invocation(&mut dt, &mut mx, "k", "m", 500, 0, 0);
    let second = begin_invocation(&mut dt, &mut mx, "k", "m", 500, 0, 100);
    assert_eq!(first, ScheduleStep::Wait { window_ms: 500, stamp: 0 });
    assert_eq!(second, ScheduleStep::Wait { window_ms: 500, stamp: 100 });
    // The first sleeper finds its stamp shadowed; the second proceeds and
    // takes the mutex.
    assert_eq!(resume_invocation(&dt, &mut mx, "k", "m", 0), ScheduleStep::SkipSuperseded);
    assert_eq!(resume_invocation(&dt, &mut mx, "k", "m", 100), ScheduleStep::Execute);
    // A third concurrent resume is stopped by the held mutex.
    assert_eq!(resume_invocation(&dt, &mut mx, "k", "m", 100), ScheduleStep::SkipMutexBusy);
    finish_invocation(&mut mx, "m");
}

#[test]
fn test_throttle_begin_skips() {
    let mut dt = LimitCache::new();
    let mut mx = MutexKeys::new();
    assert_eq!(begin_invocation(&mut dt, &mut mx, "k", "", 0, 1000, 0), ScheduleStep::Execute);
    finish_invocation(&mut mx, "");
    assert_eq!(
        begin_invocation(&mut dt, &mut mx, "k", "", 0, 1000, 100),
        ScheduleStep::SkipThrottled
    );
}

#[test]
fn test_throttle_boundary_is_strict() {
    let mut cache = LimitCache::new();
    assert!(!apply_throttle(&mut cache, "k", 500, 0));
    // An arrival exactly one window later proceeds: the comparison is strict.
    assert!(!apply_throttle(&mut cache, "k", 500, 500));
    assert!(apply_throttle(&mut cache, "k", 500, 999));
}

#[test]
fn test_throttle_clock_regression_skips() {
    let mut cache = LimitCache::new();
    assert!(!apply_throttle(&mut cache, "k", 500, 1000));
    // A reading behind the stored stamp counts as zero elapsed time.
    assert!(apply_throttle(&mut cache, "k", 500, 900));
}

#[test]
fn test_debounce_equal_stamp_proceeds() {
    let mut cache = LimitCache::new();
    debounce_stamp(&mut cache, "k", 42);
    // Only a strictly newer stamp supersedes.
    assert!(!debounce_check(&cache, "k", 42));
    assert!(debounce_check(&cache, "k", 41));
}

#[test]
fn test_limit_cache_overwrites() {
    let mut cache = LimitCache::new();
    cache.set_ms("k", 5);
    cache.set_ms("k", 9);
    assert_eq!(cache.get_ms("k"), Some(9));
    assert_eq!(cache.get_ms("other"), None);
}
