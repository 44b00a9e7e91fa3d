//! Sliding-window rate limiting per device UUID: a request is allowed while
//! fewer than `max_requests` requests of the device were allowed in the last
//! `window_secs` seconds.
//!
//! Times are whole seconds on a monotonic clock, handed in by the caller.
use vstd::prelude::*;
use dashmap::DashMap;

use crate::error::FreshBluError;

verus! {

/// `dashmap::DashMap`, a concurrent hash map, known to Verus only by name.
#[verifier::external_type_specification]
#[verifier::external_body]
#[verifier::reject_recursive_types(K)]
#[verifier::reject_recursive_types(V)]
#[verifier::reject_recursive_types(S)]
pub struct ExDashMap<K, V, S>(DashMap<K, V, S>);

/// A map from device UUID to the times of its allowed requests that may
/// still count, oldest first.
pub type WindowMap = DashMap<u128, Vec<u64>>;

/// Seconds from `start` to `now` (zero where `now` is earlier).
pub open spec fn elapsed(now: u64, start: u64) -> u64 {
    if now >= start {
        (now - start) as u64
    } else {
        0
    }
}

/// The times of `log` that lie fewer than `window_secs` seconds before
/// `now`, in order.
pub open spec fn recent(log: Seq<u64>, now: u64, window_secs: u64) -> Seq<u64>
    decreases log.len(),
{
    if log.len() == 0 {
        Seq::empty()
    } else {
        let earlier = recent(log.drop_last(), now, window_secs);
        if elapsed(now, log.last()) < window_secs {
            earlier.push(log.last())
        } else {
            earlier
        }
    }
}

/// A request at `now` of a device whose log is `log`: the log afterwards and
/// whether the request is allowed. Only the times of the last `window_secs`
/// seconds are kept; the request is allowed, and its time logged, while
/// fewer than `max_requests` of them remain.
pub open spec fn after_request(log: Seq<u64>, now: u64, max_requests: u64, window_secs: u64) -> (Seq<u64>, bool) {
    let kept = recent(log, now, window_secs);
    if kept.len() < max_requests {
        (kept.push(now), true)
    } else {
        (kept, false)
    }
}

/// The log of `uuid` in a map of logs (empty where it has none).
pub open spec fn log_of(windows: Map<u128, Seq<u64>>, uuid: u128) -> Seq<u64> {
    if windows.contains_key(uuid) {
        windows[uuid]
    } else {
        Seq::empty()
    }
}

/// The request logs that a map of device logs holds, by device.
pub uninterp spec fn window_entries(m: WindowMap) -> Map<u128, Seq<u64>>;

/// Whether a log holds a time fewer than `threshold` seconds before `now`.
pub open spec fn has_recent(log: Seq<u64>, now: u64, threshold: int) -> bool {
    exists|i: int| 0 <= i < log.len() && (elapsed(now, #[trigger] log[i]) as int) < threshold
}

/// `dashmap::DashMap::new`: a map that holds nothing.
#[verifier::external_body]
fn new_windows() -> (r: WindowMap)
    ensures
        window_entries(r) =~= Map::empty(),
{
    DashMap::new()
}

/// `dashmap::DashMap::get`: the log of `uuid`, copied out, if the map holds
/// one.
#[verifier::external_body]
fn window_of(m: &WindowMap, uuid: u128) -> (r: Option<Vec<u64>>)
    ensures
        match r {
            Some(v) => window_entries(*m).contains_key(uuid) && v@ == window_entries(*m)[uuid],
            None => !window_entries(*m).contains_key(uuid),
        },
{
    m.get(&uuid).map(|e| e.value().clone())
}

/// `dashmap::DashMap::insert`: afterwards the map holds `log` for `uuid`, and
/// the other logs as before.
#[verifier::external_body]
fn set_window(m: &mut WindowMap, uuid: u128, log: Vec<u64>)
    ensures
        window_entries(*final(m)) == window_entries(*old(m)).insert(uuid, log@),
{
    m.insert(uuid, log);
}

/// `dashmap::DashMap::retain`, keeping the logs that `log_is_recent` keeps.
#[verifier::external_body]
fn keep_recent(m: &mut WindowMap, now: u64, threshold: u128)
    ensures
        window_entries(*final(m)) == window_entries(*old(m)).restrict(
            window_entries(*old(m)).dom().filter(
                |k: u128| has_recent(window_entries(*old(m))[k], now, threshold as int),
            ),
        ),
{
    m.retain(|_, log| log_is_recent(now, log, threshold));
}

/// `dashmap::DashMap::len`: the number of logs held.
#[verifier::external_body]
fn window_count(m: &WindowMap) -> (n: usize)
    ensures
        n == window_entries(*m).len(),
{
    m.len()
}

/// Whether a log holds a time fewer than `threshold` seconds before `now`.
pub fn log_is_recent(now: u64, log: &Vec<u64>, threshold: u128) -> (r: bool)
    ensures
        r == has_recent(log@, now, threshold as int),
{
    let mut i: usize = 0;
    while i < log.len()
        invariant
            i <= log@.len(),
            forall|j: int| 0 <= j < i ==> !((elapsed(now, #[trigger] log@[j]) as int) < threshold as int),
        decreases log@.len() - i,
    {
        let t = log[i];
        let since = if now >= t {
            now - t
        } else {
            0
        };
        if (since as u128) < threshold {
            return true;
        }
        i = i + 1;
    }
    false
}

/// Per-device request logs.
pub struct RateLimiter {
    /// Device UUID to the times of its allowed requests that may still count.
    windows: WindowMap,
    max_requests: u64,
    window_secs: u64,
}

impl RateLimiter {
    /// The request logs, by device.
    pub closed spec fn windows(&self) -> Map<u128, Seq<u64>> {
        window_entries(self.windows)
    }

    /// The most requests allowed in one window.
    pub closed spec fn max_requests(&self) -> u64 {
        self.max_requests
    }

    /// The length of a window in seconds.
    pub closed spec fn window_secs(&self) -> u64 {
        self.window_secs
    }

    /// Finitely many devices have a log.
    pub open spec fn wf(&self) -> bool {
        self.windows().dom().finite()
    }

    /// A limiter allowing `max_requests` per `window_secs` seconds, with no
    /// device counted yet.
    pub fn new(max_requests: u64, window_secs: u64) -> (r: RateLimiter)
        ensures
            r.wf(),
            r.windows() == Map::<u128, Seq<u64>>::empty(),
            r.max_requests() == max_requests,
            r.window_secs() == window_secs,
    {
        RateLimiter { windows: new_windows(), max_requests, window_secs }
    }

    /// Counts a request of `uuid` at time `now`; refuses it with
    /// `RateLimitExceeded` when `max_requests` requests of the device were
    /// already allowed in the last `window_secs` seconds.
    ///
    /// Across calls: where the device's log is the one that a run of earlier
    /// requests at nondecreasing times leaves (`run`; a new limiter holds the
    /// log of the empty run), the log afterwards is that of the run with this
    /// request added, and the request is allowed exactly when fewer than
    /// `max_requests` of the run's allowed requests lie within the window.
    pub fn check(&mut self, uuid: u128, now: u64) -> (r: Result<(), FreshBluError>)
        requires
            old(self).wf(),
        ensures
            final(self).wf(),
            final(self).max_requests() == old(self).max_requests(),
            final(self).window_secs() == old(self).window_secs(),
            final(self).windows() == old(self).windows().insert(
                uuid,
                after_request(
                    log_of(old(self).windows(), uuid),
                    now,
                    old(self).max_requests(),
                    old(self).window_secs(),
                ).0,
            ),
            r is Ok <==> after_request(
                log_of(old(self).windows(), uuid),
                now,
                old(self).max_requests(),
                old(self).window_secs(),
            ).1,
            r matches Err(e) ==> e is RateLimitExceeded,
            forall|times: Seq<u64>|
                #![trigger run(times, old(self).max_requests(), old(self).window_secs())]
                log_of(old(self).windows(), uuid) == run(times, old(self).max_requests(), old(self).window_secs()).0
                    && nondecreasing(times) && (times.len() > 0 ==> times.last() <= now) ==> {
                    &&& log_of(final(self).windows(), uuid) == run(
                        times.push(now),
                        old(self).max_requests(),
                        old(self).window_secs(),
                    ).0
                    &&& (r is Ok <==> recent(
                        run(times, old(self).max_requests(), old(self).window_secs()).1,
                        now,
                        old(self).window_secs(),
                    ).len() < old(self).max_requests())
                },
    {
        let log = match window_of(&self.windows, uuid) {
            Some(v) => v,
            None => Vec::new(),
        };
        let ghost whole = log@;
        assert(whole == log_of(old(self).windows(), uuid));
        let mut kept: Vec<u64> = Vec::new();
        let mut i: usize = 0;
        while i < log.len()
            invariant
                log@ == whole,
                i <= whole.len(),
                kept@ == recent(whole.take(i as int), now, self.window_secs),
                kept@.len() <= i,
            decreases whole.len() - i,
        {
            proof {
                assert(whole.take(i + 1).drop_last() =~= whole.take(i as int));
                assert(whole.take(i + 1).last() == whole[i as int]);
            }
            let t = log[i];
            let since = if now >= t {
                now - t
            } else {
                0
            };
            if since < self.window_secs {
                kept.push(t);
            }
            i = i + 1;
        }
        proof {
            assert(whole.take(whole.len() as int) =~= whole);
        }
        let allowed = (kept.len() as u128) < (self.max_requests as u128);
        if allowed {
            kept.push(now);
        }
        set_window(&mut self.windows, uuid, kept);
        proof {
            let max = old(self).max_requests();
            let w = old(self).window_secs();
            assert forall|times: Seq<u64>|
                #![trigger run(times, max, w)]
                log_of(old(self).windows(), uuid) == run(times, max, w).0 && nondecreasing(times) && (
                times.len() > 0 ==> times.last() <= now) implies {
                &&& log_of(self.windows(), uuid) == run(times.push(now), max, w).0
                &&& (allowed <==> recent(run(times, max, w).1, now, w).len() < max)
            } by {
                assert(times.push(now).drop_last() =~= times);
                law_sliding_window(times, now, max, w);
            }
        }
        if !allowed {
            return Err(FreshBluError::RateLimitExceeded);
        }
        Ok(())
    }

    /// Drops the logs of the devices none of whose logged requests lies
    /// fewer than `2 * window_secs` seconds before `now`.
    pub fn evict_stale(&mut self, window_secs: u64, now: u64)
        requires
            old(self).wf(),
        ensures
            final(self).wf(),
            final(self).max_requests() == old(self).max_requests(),
            final(self).window_secs() == old(self).window_secs(),
            final(self).windows() == old(self).windows().restrict(
                old(self).windows().dom().filter(
                    |k: u128| has_recent(old(self).windows()[k], now, 2 * window_secs),
                ),
            ),
    {
        let threshold: u128 = 2 * (window_secs as u128);
        keep_recent(&mut self.windows, now, threshold);
        proof {
            let m = old(self).windows();
            assert(self.windows().dom() =~= m.dom().filter(|k: u128| has_recent(m[k], now, threshold as int)));
        }
    }

    /// Number of devices that have a log.
    pub fn tracked_count(&self) -> (n: usize)
        ensures
            n == self.windows().len(),
    {
        window_count(&self.windows)
    }
}

/// Requests at `times`, in order, of one device through a fresh limiter: the
/// log the limiter keeps afterwards, and the times of the allowed requests.
pub open spec fn run(times: Seq<u64>, max_requests: u64, window_secs: u64) -> (Seq<u64>, Seq<u64>)
    decreases times.len(),
{
    if times.len() == 0 {
        (Seq::empty(), Seq::empty())
    } else {
        let (log, allowed) = run(times.drop_last(), max_requests, window_secs);
        let (next, ok) = after_request(log, times.last(), max_requests, window_secs);
        (
            next,
            if ok {
                allowed.push(times.last())
            } else {
                allowed
            },
        )
    }
}

/// Whether times never go backwards.
pub open spec fn nondecreasing(times: Seq<u64>) -> bool {
    forall|i: int, j: int| 0 <= i <= j < times.len() ==> times[i] <= times[j]
}

/// Whether every time of `s` is at most `t`.
pub open spec fn all_at_most(s: Seq<u64>, t: u64) -> bool {
    forall|i: int| 0 <= i < s.len() ==> #[trigger] s[i] <= t
}

proof fn lemma_recent_at_most(log: Seq<u64>, now: u64, w: u64, t: u64)
    requires
        all_at_most(log, t),
    ensures
        all_at_most(recent(log, now, w), t),
    decreases log.len(),
{
    if log.len() > 0 {
        assert(all_at_most(log.drop_last(), t)) by {
            assert forall|i: int| 0 <= i < log.drop_last().len() implies #[trigger] log.drop_last()[i] <= t by {
                assert(log.drop_last()[i] == log[i]);
            }
        }
        lemma_recent_at_most(log.drop_last(), now, w, t);
        assert(log.last() == log[log.len() - 1]);
    }
}

/// Pruning at `t1` and then at a later `t2` prunes as pruning at `t2` alone,
/// for a log of times up to `t1`.
proof fn lemma_recent_twice(log: Seq<u64>, t1: u64, t2: u64, w: u64)
    requires
        all_at_most(log, t1),
        t1 <= t2,
    ensures
        recent(recent(log, t1, w), t2, w) == recent(log, t2, w),
    decreases log.len(),
{
    if log.len() > 0 {
        let rest = log.drop_last();
        assert(all_at_most(rest, t1)) by {
            assert forall|i: int| 0 <= i < rest.len() implies #[trigger] rest[i] <= t1 by {
                assert(rest[i] == log[i]);
            }
        }
        lemma_recent_twice(rest, t1, t2, w);
        let x = log.last();
        assert(x == log[log.len() - 1]);
        let r1 = recent(rest, t1, w);
        if elapsed(t1, x) < w {
            assert(r1.push(x).drop_last() =~= r1);
        }
    }
}

/// The limiter counts exactly the allowed requests of the last
/// `window_secs` seconds: after requests at nondecreasing `times`, a request
/// at `now` (not earlier than them) is allowed exactly when fewer than
/// `max_requests` of the allowed requests lie fewer than `window_secs`
/// seconds before `now`.
pub proof fn law_sliding_window(times: Seq<u64>, now: u64, max_requests: u64, window_secs: u64)
    requires
        nondecreasing(times),
        times.len() > 0 ==> times.last() <= now,
    ensures
        after_request(run(times, max_requests, window_secs).0, now, max_requests, window_secs).1 <==> recent(
            run(times, max_requests, window_secs).1,
            now,
            window_secs,
        ).len() < max_requests,
{
    lemma_run(times, max_requests, window_secs, now);
}

/// The kept log and the allowed times agree on what lies in any window that
/// ends at or after the last request, and hold no later time.
proof fn lemma_run(times: Seq<u64>, max: u64, w: u64, now: u64)
    requires
        nondecreasing(times),
        times.len() > 0 ==> times.last() <= now,
    ensures
        recent(run(times, max, w).0, now, w) == recent(run(times, max, w).1, now, w),
        times.len() > 0 ==> all_at_most(run(times, max, w).0, times.last()),
        times.len() > 0 ==> all_at_most(run(times, max, w).1, times.last()),
    decreases times.len(),
{
    if times.len() > 0 {
        let prev = times.drop_last();
        let t = times.last();
        assert(t == times[times.len() - 1]);
        assert(nondecreasing(prev)) by {
            assert forall|i: int, j: int| 0 <= i <= j < prev.len() implies prev[i] <= prev[j] by {
                assert(prev[i] == times[i] && prev[j] == times[j]);
            }
        }
        if prev.len() > 0 {
            assert(prev.last() == times[prev.len() - 1]);
        }
        lemma_run(prev, max, w, now);
        lemma_run(prev, max, w, t);
        let (log0, acc0) = run(prev, max, w);
        let kept = recent(log0, t, w);
        if prev.len() > 0 {
            assert(prev.last() <= t);
            assert(all_at_most(log0, t)) by {
                assert forall|i: int| 0 <= i < log0.len() implies #[trigger] log0[i] <= t by {
                    assert(log0[i] <= prev.last());
                }
            }
            lemma_recent_twice(log0, t, now, w);
            lemma_recent_at_most(log0, t, w, prev.last());
            assert(all_at_most(kept, t)) by {
                assert forall|i: int| 0 <= i < kept.len() implies #[trigger] kept[i] <= t by {
                    assert(kept[i] <= prev.last());
                }
            }
            assert(all_at_most(acc0, t)) by {
                assert forall|i: int| 0 <= i < acc0.len() implies #[trigger] acc0[i] <= t by {
                    assert(acc0[i] <= prev.last());
                }
            }
            assert(recent(kept, now, w) == recent(log0, now, w));
        } else {
            assert(log0 =~= Seq::<u64>::empty());
            assert(acc0 =~= Seq::<u64>::empty());
            assert(kept =~= Seq::<u64>::empty());
        }
        if kept.len() < max {
            assert(kept.push(t).drop_last() =~= kept);
            assert(acc0.push(t).drop_last() =~= acc0);
            assert(all_at_most(kept.push(t), t)) by {
                assert forall|i: int| 0 <= i < kept.push(t).len() implies #[trigger] kept.push(t)[i] <= t by {
                    if i < kept.len() {
                        assert(kept.push(t)[i] == kept[i]);
                    }
                }
            }
            assert(all_at_most(acc0.push(t), t)) by {
                assert forall|i: int| 0 <= i < acc0.push(t).len() implies #[trigger] acc0.push(t)[i] <= t by {
                    if i < acc0.len() {
                        assert(acc0.push(t)[i] == acc0[i]);
                    }
                }
            }
        }
    }
}

/// A log dropped by `evict_stale` counts for nothing afterwards: when none of
/// its times lies within `2 * window_secs` seconds before `now`, none lies
/// within `window_secs` seconds of any later time.
pub proof fn law_eviction_forgets_only_expired(log: Seq<u64>, now: u64, later: u64, window_secs: u64)
    requires
        all_at_most(log, now),
        now <= later,
        !has_recent(log, now, 2 * window_secs),
    ensures
        recent(log, later, window_secs).len() == 0,
    decreases log.len(),
{
    if log.len() > 0 {
        let rest = log.drop_last();
        assert(all_at_most(rest, now)) by {
            assert forall|i: int| 0 <= i < rest.len() implies #[trigger] rest[i] <= now by {
                assert(rest[i] == log[i]);
            }
        }
        assert(!has_recent(rest, now, 2 * window_secs)) by {
            if has_recent(rest, now, 2 * window_secs) {
                let i = choose|i: int|
                    0 <= i < rest.len() && (elapsed(now, #[trigger] rest[i]) as int) < 2 * window_secs;
                assert(rest[i] == log[i]);
            }
        }
        law_eviction_forgets_only_expired(rest, now, later, window_secs);
        let x = log.last();
        assert(x == log[log.len() - 1]);
        assert(!((elapsed(now, log[log.len() - 1]) as int) < 2 * window_secs));
    }
}

} // verus!
