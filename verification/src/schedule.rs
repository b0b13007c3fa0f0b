//! The three-layer rate-limiting scheduler: trailing-edge debounce,
//! leading-edge throttle, and a keyed in-process mutex.  Every decision is a
//! pure function of the shared caches and the (externally supplied) monotonic
//! timestamps; the caller performs the sleeping and the process execution and
//! feeds the results back in.

use vstd::prelude::*;

use crate::cache::{LimitCache, MutexKeys};

verus! {

/// `now - last` on the monotonic clock, clamped at zero.
pub open spec fn elapsed_ms(now: u64, last: u64) -> int {
    if now >= last {
        now - last
    } else {
        0
    }
}

/// A throttled arrival is skipped: the key was active less than `threshold`
/// milliseconds ago.
pub open spec fn throttle_skips(m: Map<Seq<char>, u64>, key: Seq<char>, threshold: u64, now: u64) -> bool {
    threshold > 0 && m.contains_key(key) && elapsed_ms(now, m[key]) < threshold
}

/// The cache after one throttle decision: a proceeding arrival stamps the
/// key, a skipped one (and a disabled throttle) leaves the cache alone.
pub open spec fn throttle_step(m: Map<Seq<char>, u64>, key: Seq<char>, threshold: u64, now: u64) -> Map<Seq<char>, u64> {
    if threshold == 0 || throttle_skips(m, key, threshold, now) {
        m
    } else {
        m.insert(key, now)
    }
}

/// Leading-edge throttle: skip the arrival if the key saw activity within the
/// window, otherwise record `now` and proceed.  A zero threshold disables the
/// layer.
pub fn apply_throttle(cache: &mut LimitCache, limitkey: &str, threshold: u64, now: u64) -> (skip: bool)
    requires
        old(cache).wf(),
    ensures
        final(cache).wf(),
        skip == throttle_skips(old(cache)@, limitkey@, threshold, now),
        final(cache)@ == throttle_step(old(cache)@, limitkey@, threshold, now),
{
    if threshold == 0 {
        return false;
    }
    match cache.get_ms(limitkey) {
        Some(last) => {
            let since: u64 = if now >= last {
                now - last
            } else {
                0
            };
            if since < threshold {
                true
            } else {
                cache.set_ms(limitkey, now);
                false
            }
        }
        None => {
            cache.set_ms(limitkey, now);
            false
        }
    }
}

/// First half of the trailing-edge debounce: record this arrival's stamp.
/// The caller then sleeps for the debounce window and calls
/// [`debounce_check`] with the same stamp.
pub fn debounce_stamp(cache: &mut LimitCache, limitkey: &str, now: u64)
    requires
        old(cache).wf(),
    ensures
        final(cache).wf(),
        final(cache)@ == old(cache)@.insert(limitkey@, now),
{
    cache.set_ms(limitkey, now);
}

/// A debounced arrival is skipped exactly when a later arrival overwrote its
/// stamp while it slept; the comparison is strict.
pub open spec fn debounce_skips(m: Map<Seq<char>, u64>, key: Seq<char>, stamp: u64) -> bool {
    m.contains_key(key) && m[key] > stamp
}

/// Second half of the trailing-edge debounce: after the sleep, the arrival
/// proceeds only if its own stamp is still the newest one for the key.
pub fn debounce_check(cache: &LimitCache, limitkey: &str, stamp: u64) -> (skip: bool)
    requires
        cache.wf(),
    ensures
        skip == debounce_skips(cache@, limitkey@, stamp),
{
    match cache.get_ms(limitkey) {
        Some(stored) => stored > stamp,
        None => false,
    }
}

/// An acquisition succeeds on an empty key (the mutex layer is disabled) and
/// on a key not currently held.
pub open spec fn mutex_acquires(held: Set<Seq<char>>, key: Seq<char>) -> bool {
    key.len() == 0 || !held.contains(key)
}

/// The held set after an acquisition attempt.
pub open spec fn mutex_acquire_step(held: Set<Seq<char>>, key: Seq<char>) -> Set<Seq<char>> {
    if key.len() > 0 && !held.contains(key) {
        held.insert(key)
    } else {
        held
    }
}

/// The held set after a release.
pub open spec fn mutex_release_step(held: Set<Seq<char>>, key: Seq<char>) -> Set<Seq<char>> {
    if key.len() == 0 {
        held
    } else {
        held.remove(key)
    }
}

/// Try to take the keyed mutex.  An empty key always succeeds without
/// touching the held set; a held key fails without waiting.
pub fn acquire_mutex(cache: &mut MutexKeys, mutexkey: &str) -> (acquired: bool)
    requires
        old(cache).wf(),
    ensures
        final(cache).wf(),
        acquired == mutex_acquires(old(cache)@, mutexkey@),
        final(cache)@ == mutex_acquire_step(old(cache)@, mutexkey@),
        mutexkey@.len() == 0 ==> final(cache)@ == old(cache)@,
{
    if mutexkey.unicode_len() == 0 {
        return true;
    }
    if cache.holds(mutexkey) {
        false
    } else {
        cache.add(mutexkey);
        true
    }
}

/// Release the keyed mutex on every exit path of the protected region.  An
/// empty key was never acquired and is left alone.
pub fn release_mutex(cache: &mut MutexKeys, mutexkey: &str)
    requires
        old(cache).wf(),
    ensures
        final(cache).wf(),
        final(cache)@ == mutex_release_step(old(cache)@, mutexkey@),
{
    if mutexkey.unicode_len() == 0 {
        return;
    }
    cache.drop_key(mutexkey);
}

/// The skip decisions for arrivals at the given times, all under one key,
/// each applied to the cache the previous arrival left behind.
pub open spec fn throttle_outcomes(m: Map<Seq<char>, u64>, key: Seq<char>, threshold: u64, times: Seq<u64>) -> Seq<bool>
    decreases times.len(),
{
    if times.len() == 0 {
        Seq::empty()
    } else {
        seq![throttle_skips(m, key, threshold, times[0])]
            + throttle_outcomes(throttle_step(m, key, threshold, times[0]), key, threshold, times.drop_first())
    }
}

proof fn lemma_cons_index<A>(x: A, rest: Seq<A>, i: int)
    requires
        0 <= i <= rest.len(),
    ensures
        i == 0 ==> (seq![x] + rest)[i] == x,
        i >= 1 ==> (seq![x] + rest)[i] == rest[i - 1],
{
}

proof fn lemma_throttle_outcomes_len(m: Map<Seq<char>, u64>, key: Seq<char>, threshold: u64, times: Seq<u64>)
    ensures
        throttle_outcomes(m, key, threshold, times).len() == times.len(),
    decreases times.len(),
{
    if times.len() > 0 {
        lemma_throttle_outcomes_len(throttle_step(m, key, threshold, times[0]), key, threshold, times.drop_first());
    }
}

proof fn lemma_mutex_outcomes_len(held: Set<Seq<char>>, key: Seq<char>, n: nat)
    ensures
        mutex_outcomes(held, key, n).len() == n,
    decreases n,
{
    if n > 0 {
        lemma_mutex_outcomes_len(mutex_acquire_step(held, key), key, (n - 1) as nat);
    }
}

proof fn lemma_throttle_all_skip(m: Map<Seq<char>, u64>, key: Seq<char>, threshold: u64, times: Seq<u64>, base: u64)
    requires
        threshold > 0,
        m.contains_key(key),
        m[key] == base,
        forall|i: int| 0 <= i < times.len() ==> base <= #[trigger] times[i] && times[i] - base < threshold,
    ensures
        forall|i: int| 0 <= i < times.len() ==> throttle_outcomes(m, key, threshold, times)[i],
    decreases times.len(),
{
    if times.len() > 0 {
        assert(elapsed_ms(times[0], base) < threshold);
        assert(throttle_skips(m, key, threshold, times[0]));
        assert(throttle_step(m, key, threshold, times[0]) == m);
        lemma_throttle_all_skip(m, key, threshold, times.drop_first(), base);
        lemma_throttle_outcomes_len(m, key, threshold, times.drop_first());
        let rest = throttle_outcomes(m, key, threshold, times.drop_first());
        assert(throttle_outcomes(m, key, threshold, times)
            == seq![throttle_skips(m, key, threshold, times[0])] + rest);
        assert forall|i: int| 0 <= i < times.len() implies throttle_outcomes(m, key, threshold, times)[i] by {
            lemma_cons_index(throttle_skips(m, key, threshold, times[0]), rest, i);
            if i > 0 {
                assert(rest[i - 1]);
            }
        }
    }
}

/// Throttle window law: of any burst of arrivals under one key, all inside
/// one throttle window of the first and in arrival order, exactly the first
/// proceeds and every later one is skipped.
pub proof fn lemma_throttle_window(m: Map<Seq<char>, u64>, key: Seq<char>, threshold: u64, times: Seq<u64>)
    requires
        threshold > 0,
        times.len() > 0,
        !m.contains_key(key),
        forall|i: int| 0 <= i < times.len() ==> times[0] <= #[trigger] times[i] && times[i] - times[0] < threshold,
    ensures
        !throttle_outcomes(m, key, threshold, times)[0],
        forall|i: int| 1 <= i < times.len() ==> throttle_outcomes(m, key, threshold, times)[i],
{
    assert(!throttle_skips(m, key, threshold, times[0]));
    let m1 = throttle_step(m, key, threshold, times[0]);
    assert(m1 == m.insert(key, times[0]));
    lemma_throttle_all_skip(m1, key, threshold, times.drop_first(), times[0]);
    lemma_throttle_outcomes_len(m1, key, threshold, times.drop_first());
    let rest = throttle_outcomes(m1, key, threshold, times.drop_first());
    assert(throttle_outcomes(m, key, threshold, times)
        == seq![throttle_skips(m, key, threshold, times[0])] + rest);
    lemma_cons_index(throttle_skips(m, key, threshold, times[0]), rest, 0);
    assert forall|i: int| 1 <= i < times.len() implies throttle_outcomes(m, key, threshold, times)[i] by {
        lemma_cons_index(throttle_skips(m, key, threshold, times[0]), rest, i);
        assert(rest[i - 1]);
    }
}

pub open spec fn strictly_increasing(times: Seq<u64>) -> bool {
    forall|i: int, j: int| 0 <= i < j < times.len() ==> times[i] < times[j]
}

/// The newest stamp in `times` written no later than `t`, for an ascending
/// `times` whose first stamp is already `<= t`.
pub open spec fn latest_stamp_le(times: Seq<u64>, t: u64) -> u64
    decreases times.len(),
{
    if times.len() <= 1 {
        times[0]
    } else if times.last() <= t {
        times.last()
    } else {
        latest_stamp_le(times.drop_last(), t)
    }
}

proof fn lemma_latest_stamp_ge(times: Seq<u64>, t: u64, j: int)
    requires
        strictly_increasing(times),
        0 <= j < times.len(),
        times[j] <= t,
    ensures
        latest_stamp_le(times, t) >= times[j],
    decreases times.len(),
{
    if times.len() > 1 && times.last() > t {
        assert(j < times.len() - 1);
        assert(times.drop_last()[j] == times[j]);
        lemma_latest_stamp_ge(times.drop_last(), t, j);
    }
}

/// Debounce trailing-edge law: arrivals under one key come in strictly
/// ascending order with every gap below the window.  Each arrival stamps its
/// own time and, after sleeping out the window, reads the newest stamp then
/// present.  Exactly the last arrival finds its own stamp unshadowed and
/// proceeds; every earlier one is skipped.
pub proof fn lemma_debounce_trailing_edge(m: Map<Seq<char>, u64>, key: Seq<char>, times: Seq<u64>, window: u64, i: int)
    requires
        window > 0,
        times.len() > 0,
        strictly_increasing(times),
        forall|j: int| 0 <= j < times.len() - 1 ==> #[trigger] times[j + 1] - times[j] < window,
        times[times.len() - 1] + window <= u64::MAX,
        0 <= i < times.len(),
        m.contains_key(key),
        m[key] == latest_stamp_le(times, (times[i] + window) as u64),
    ensures
        debounce_skips(m, key, times[i]) <==> i < times.len() - 1,
{
    let t = (times[i] + window) as u64;
    if i < times.len() - 1 {
        assert(times[i + 1] - times[i] < window);
        assert(times[i + 1] <= t);
        lemma_latest_stamp_ge(times, t, i + 1);
        assert(m[key] >= times[i + 1]);
        assert(times[i] < times[i + 1]);
    } else {
        assert(times.last() == times[i]);
        assert(times.last() <= t);
        if times.len() > 1 {
            assert(latest_stamp_le(times, t) == times.last());
        }
        assert(m[key] == times[i]);
    }
}

/// The outcomes of `n` successive acquisition attempts for one key, none of
/// them releasing in between.
pub open spec fn mutex_outcomes(held: Set<Seq<char>>, key: Seq<char>, n: nat) -> Seq<bool>
    decreases n,
{
    if n == 0 {
        Seq::empty()
    } else {
        seq![mutex_acquires(held, key)] + mutex_outcomes(mutex_acquire_step(held, key), key, (n - 1) as nat)
    }
}

proof fn lemma_mutex_all_busy(held: Set<Seq<char>>, key: Seq<char>, n: nat)
    requires
        key.len() > 0,
        held.contains(key),
    ensures
        forall|i: int| 0 <= i < n ==> !mutex_outcomes(held, key, n)[i],
    decreases n,
{
    if n > 0 {
        assert(mutex_acquire_step(held, key) == held);
        lemma_mutex_all_busy(held, key, (n - 1) as nat);
        lemma_mutex_outcomes_len(held, key, (n - 1) as nat);
        let rest = mutex_outcomes(held, key, (n - 1) as nat);
        assert(mutex_outcomes(held, key, n) == seq![mutex_acquires(held, key)] + rest);
        assert forall|i: int| 0 <= i < n implies !mutex_outcomes(held, key, n)[i] by {
            lemma_cons_index(mutex_acquires(held, key), rest, i);
            if i > 0 {
                assert(!rest[i - 1]);
            }
        }
    }
}

/// Mutex exclusion law: while an invocation holds a non-empty key, no other
/// acquisition of that key succeeds — of `n` concurrent attempts, exactly
/// the first acquires and the rest are skipped, none waiting.
pub proof fn lemma_mutex_contention(held: Set<Seq<char>>, key: Seq<char>, n: nat)
    requires
        key.len() > 0,
        !held.contains(key),
        n > 0,
    ensures
        mutex_outcomes(held, key, n)[0],
        forall|i: int| 1 <= i < n ==> !mutex_outcomes(held, key, n)[i],
{
    let h1 = mutex_acquire_step(held, key);
    assert(h1 == held.insert(key));
    lemma_mutex_all_busy(h1, key, (n - 1) as nat);
    lemma_mutex_outcomes_len(h1, key, (n - 1) as nat);
    let rest = mutex_outcomes(h1, key, (n - 1) as nat);
    assert(mutex_outcomes(held, key, n) == seq![mutex_acquires(held, key)] + rest);
    lemma_cons_index(mutex_acquires(held, key), rest, 0);
    assert forall|i: int| 1 <= i < n implies !mutex_outcomes(held, key, n)[i] by {
        lemma_cons_index(mutex_acquires(held, key), rest, i);
        assert(!rest[i - 1]);
    }
}

/// Releasing a non-empty key after acquiring it restores the held set, so a
/// process in which every acquirer releases on exit ends with the set empty:
/// the set is non-empty exactly while some protected region executes.
pub proof fn lemma_mutex_release_restores(held: Set<Seq<char>>, key: Seq<char>)
    requires
        key.len() > 0,
        !held.contains(key),
    ensures
        mutex_release_step(mutex_acquire_step(held, key), key) == held,
{
    assert(held.insert(key).remove(key) =~= held);
}

/// What the caller must do next with one arriving invocation.
#[derive(Debug, PartialEq, Eq, Clone, Copy)]
pub enum ScheduleStep {
    /// Debounce is enabled: sleep for the window, then resume with the stamp.
    Wait { window_ms: u64, stamp: u64 },
    /// All layers passed; the mutex (if any) is now held.  Execute, then
    /// call [`finish_invocation`].
    Execute,
    /// The throttle window had not elapsed.
    SkipThrottled,
    /// A later arrival overwrote this one's stamp during the debounce sleep.
    SkipSuperseded,
    /// Another invocation holds the mutex key.
    SkipMutexBusy,
}

/// First scheduling decision for an arrival at `now`.  Debounce wins when
/// both windows are set; with both at zero the arrival is not rate limited
/// at all and goes straight to the mutex layer.
pub fn begin_invocation(
    dt_cache: &mut LimitCache,
    mutex_cache: &mut MutexKeys,
    limitkey: &str,
    mutexkey: &str,
    debounce: u64,
    throttle: u64,
    now: u64,
) -> (step: ScheduleStep)
    requires
        old(dt_cache).wf(),
        old(mutex_cache).wf(),
    ensures
        final(dt_cache).wf(),
        final(mutex_cache).wf(),
        debounce > 0 ==> step == (ScheduleStep::Wait { window_ms: debounce, stamp: now })
            && final(dt_cache)@ == old(dt_cache)@.insert(limitkey@, now)
            && final(mutex_cache)@ == old(mutex_cache)@,
        debounce == 0 ==> {
            let skip = throttle_skips(old(dt_cache)@, limitkey@, throttle, now);
            &&& final(dt_cache)@ == throttle_step(old(dt_cache)@, limitkey@, throttle, now)
            &&& skip ==> step == ScheduleStep::SkipThrottled && final(mutex_cache)@ == old(mutex_cache)@
            &&& !skip ==> {
                &&& step == ScheduleStep::Execute || step == ScheduleStep::SkipMutexBusy
                &&& (step == ScheduleStep::Execute) == mutex_acquires(old(mutex_cache)@, mutexkey@)
                &&& final(mutex_cache)@ == mutex_acquire_step(old(mutex_cache)@, mutexkey@)
            }
        },
        debounce == 0 && throttle == 0 && mutexkey@.len() == 0 ==> step == ScheduleStep::Execute,
{
    if debounce > 0 {
        debounce_stamp(dt_cache, limitkey, now);
        return ScheduleStep::Wait { window_ms: debounce, stamp: now };
    }
    if throttle > 0 && apply_throttle(dt_cache, limitkey, throttle, now) {
        return ScheduleStep::SkipThrottled;
    }
    if acquire_mutex(mutex_cache, mutexkey) {
        ScheduleStep::Execute
    } else {
        ScheduleStep::SkipMutexBusy
    }
}

/// Second scheduling decision, after the debounce sleep: proceed only if the
/// stamp is still the newest arrival, then take the mutex.
pub fn resume_invocation(
    dt_cache: &LimitCache,
    mutex_cache: &mut MutexKeys,
    limitkey: &str,
    mutexkey: &str,
    stamp: u64,
) -> (step: ScheduleStep)
    requires
        dt_cache.wf(),
        old(mutex_cache).wf(),
    ensures
        final(mutex_cache).wf(),
        debounce_skips(dt_cache@, limitkey@, stamp) ==> step == ScheduleStep::SkipSuperseded
            && final(mutex_cache)@ == old(mutex_cache)@,
        !debounce_skips(dt_cache@, limitkey@, stamp) ==> {
            &&& step == ScheduleStep::Execute || step == ScheduleStep::SkipMutexBusy
            &&& (step == ScheduleStep::Execute) == mutex_acquires(old(mutex_cache)@, mutexkey@)
            &&& final(mutex_cache)@ == mutex_acquire_step(old(mutex_cache)@, mutexkey@)
        },
{
    if debounce_check(dt_cache, limitkey, stamp) {
        return ScheduleStep::SkipSuperseded;
    }
    if acquire_mutex(mutex_cache, mutexkey) {
        ScheduleStep::Execute
    } else {
        ScheduleStep::SkipMutexBusy
    }
}

/// Release the mutex after the protected region, on every exit path.
pub fn finish_invocation(mutex_cache: &mut MutexKeys, mutexkey: &str)
    requires
        old(mutex_cache).wf(),
    ensures
        final(mutex_cache).wf(),
        final(mutex_cache)@ == mutex_release_step(old(mutex_cache)@, mutexkey@),
{
    release_mutex(mutex_cache, mutexkey);
}

} // verus!
