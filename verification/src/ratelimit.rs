//! The rate limiter: a request counter per client and window.
//!
//! Times are nanoseconds on a clock that the caller picks; only differences
//! between them matter. The window length is configured in seconds.

use crate::config::Config;
use crate::error::ServiceError;
use crate::health::{primary_answer, HealthIndicator, PrimaryOutcome};
use vstd::hash_map::StringHashMap;
use vstd::prelude::*;

verus! {

pub const NANOS_PER_SECOND: u64 = 1_000_000_000;

/// The counter of one client: when its window began and how many requests it
/// has made since.
#[derive(Clone, Copy, Debug, PartialEq, Eq, Structural)]
pub struct RateWindow {
    pub window_start: u64,
    pub count: u32,
}

/// The time from `since` to `now`, zero if `now` is the earlier one.
pub open spec fn elapsed(now: u64, since: u64) -> nat {
    if now >= since {
        (now - since) as nat
    } else {
        0
    }
}

/// A window is over once more than the window length has passed since it
/// began.
pub open spec fn window_over(window: RateWindow, now: u64, window_seconds: u64) -> bool {
    elapsed(now, window.window_start) > window_seconds * NANOS_PER_SECOND
}

/// The counter of a client after a request at `now`. A client without a
/// counter gets one that begins now; a window that is over is replaced by one
/// that begins now; in both, this request is the first. Otherwise the request
/// is counted in the running window, also when it is then rejected. The count
/// stops at the largest `u32`.
pub open spec fn next_window(prior: Option<RateWindow>, now: u64, window_seconds: u64) -> RateWindow {
    match prior {
        Some(window) if !window_over(window, now, window_seconds) => RateWindow {
            window_start: window.window_start,
            count: if window.count < u32::MAX {
                (window.count + 1) as u32
            } else {
                u32::MAX
            },
        },
        _ => RateWindow { window_start: now, count: 1 },
    }
}

/// Whether a request at `now` is let through. The request that begins a new
/// window after the old one is over is always let through; any other is let
/// through when the count, this request included, is within the limit.
pub open spec fn request_allowed(
    prior: Option<RateWindow>,
    now: u64,
    window_seconds: u64,
    limit: u32,
) -> bool {
    match prior {
        Some(window) => window_over(window, now, window_seconds) || window.count + 1 <= limit,
        None => 1 <= limit,
    }
}

/// Takes one request at `now` into the counter of a client: gives the new
/// counter and whether the request is let through.
pub fn count_request(prior: Option<RateWindow>, now: u64, window_seconds: u64, limit: u32) -> (next:
    (RateWindow, bool))
    ensures
        next.0 == next_window(prior, now, window_seconds),
        next.1 == request_allowed(prior, now, window_seconds, limit),
{
    match prior {
        Some(window) => {
            let passed: u64 = if now >= window.window_start {
                now - window.window_start
            } else {
                0
            };
            assert(window_seconds * NANOS_PER_SECOND <= 0xffff_ffff_ffff_ffff * 1_000_000_000)
                by (nonlinear_arith)
                requires
                    0 <= window_seconds <= 0xffff_ffff_ffff_ffff,
                    NANOS_PER_SECOND == 1_000_000_000,
            ;
            let length: u128 = window_seconds as u128 * NANOS_PER_SECOND as u128;
            if passed as u128 > length {
                (RateWindow { window_start: now, count: 1 }, true)
            } else {
                let count: u32 = if window.count < u32::MAX {
                    window.count + 1
                } else {
                    u32::MAX
                };
                (RateWindow { window_start: window.window_start, count }, window.count < limit)
            }
        },
        None => (RateWindow { window_start: now, count: 1 }, 1 <= limit),
    }
}

/// The counters of the in-process backend, by client key.
pub struct RateLimitStorage {
    map: StringHashMap<RateWindow>,
}

impl View for RateLimitStorage {
    type V = Map<Seq<char>, RateWindow>;

    closed spec fn view(&self) -> Map<Seq<char>, RateWindow> {
        self.map@
    }
}

/// The counter that a map of counters holds for a client.
pub open spec fn counter_of(counters: Map<Seq<char>, RateWindow>, client: Seq<char>) -> Option<
    RateWindow,
> {
    if counters.contains_key(client) {
        Some(counters[client])
    } else {
        None
    }
}

impl RateLimitStorage {
    /// No client has a counter.
    pub fn new() -> (storage: RateLimitStorage)
        ensures
            storage@ == Map::<Seq<char>, RateWindow>::empty(),
    {
        RateLimitStorage { map: StringHashMap::new() }
    }

    /// The counter of a client.
    pub fn get(&self, client: &str) -> (window: Option<RateWindow>)
        ensures
            window == counter_of(self@, client@),
    {
        match self.map.get(client) {
            Some(window) => Some(*window),
            None => None,
        }
    }

    /// Sets the counter of a client.
    pub fn insert(&mut self, client: String, window: RateWindow)
        ensures
            final(self)@ == old(self)@.insert(client@, window),
    {
        self.map.insert(client, window);
    }

    /// The number of clients that have a counter.
    pub fn len(&self) -> (count: usize)
        ensures
            count == self@.len(),
    {
        broadcast use vstd::hash_map::group_hash_map_axioms;

        self.map.len()
    }
}

/// Counts one request of `client_ip` at `now` in the in-process backend and
/// says whether it is let through. The counter of the client is updated
/// either way; no other counter changes.
pub fn check_rate_limit_memory(
    client_ip: &str,
    rate_storage: &mut RateLimitStorage,
    config: &Config,
    now: u64,
) -> (verdict: Result<(), ServiceError>)
    ensures
        final(rate_storage)@ == old(rate_storage)@.insert(
            client_ip@,
            next_window(
                counter_of(old(rate_storage)@, client_ip@),
                now,
                config.rate_limit_window_seconds,
            ),
        ),
        verdict is Ok <==> request_allowed(
            counter_of(old(rate_storage)@, client_ip@),
            now,
            config.rate_limit_window_seconds,
            config.rate_limit_requests_per_minute,
        ),
        verdict is Err ==> verdict->Err_0 == ServiceError::RateLimit,
{
    let prior = rate_storage.get(client_ip);
    let (window, allowed) = count_request(
        prior,
        now,
        config.rate_limit_window_seconds,
        config.rate_limit_requests_per_minute,
    );
    rate_storage.insert(String::from_str(client_ip), window);
    if allowed {
        Ok(())
    } else {
        Err(ServiceError::RateLimit)
    }
}

/// The rate limiter of the coordinator. `outcome` is what came of asking the
/// primary backend to count the request: its verdict stands if it gave one.
/// If it failed the indicator degrades, and then, as when the primary backend
/// was not tried, the request is counted in the in-process backend.
pub fn check_rate_limit(
    client_ip: &str,
    health: &mut HealthIndicator,
    rate_storage: &mut RateLimitStorage,
    config: &Config,
    now: u64,
    outcome: PrimaryOutcome<bool>,
) -> (verdict: Result<(), ServiceError>)
    ensures
        final(health)@ == old(health)@.after_outcome(outcome),
        final(health)@.wf(),
        match primary_answer(outcome) {
            Some(allowed) => {
                &&& final(rate_storage)@ == old(rate_storage)@
                &&& verdict is Ok <==> allowed
            },
            None => {
                &&& final(rate_storage)@ == old(rate_storage)@.insert(
                    client_ip@,
                    next_window(
                        counter_of(old(rate_storage)@, client_ip@),
                        now,
                        config.rate_limit_window_seconds,
                    ),
                )
                &&& verdict is Ok <==> request_allowed(
                    counter_of(old(rate_storage)@, client_ip@),
                    now,
                    config.rate_limit_window_seconds,
                    config.rate_limit_requests_per_minute,
                )
            },
        },
        verdict is Err ==> verdict->Err_0 == ServiceError::RateLimit,
{
    match health.settle(outcome) {
        Some(allowed) => {
            if allowed {
                Ok(())
            } else {
                Err(ServiceError::RateLimit)
            }
        },
        None => check_rate_limit_memory(client_ip, rate_storage, config, now),
    }
}

/// What the durable backend does with the counter of a client on a request.
#[derive(Clone, Copy, Debug, PartialEq, Eq, Structural)]
pub enum CounterUpdate {
    /// The quota is used up: the request is rejected and nothing is written.
    Reject,
    /// The request is counted in the running window.
    Increment,
    /// A new window begins with this request as its first.
    Restart,
}

/// The earliest start that a window may have and still be running at `now`,
/// both in seconds since the Unix epoch: a window is running if it began
/// after this time. The result stops at the smallest `i64`.
pub fn window_cutoff(now: i64, window_seconds: u64) -> (cutoff: i64)
    ensures
        cutoff == if now - window_seconds >= i64::MIN {
            now - window_seconds
        } else {
            i64::MIN as int
        },
{
    let wide: i128 = now as i128 - window_seconds as i128;
    if wide >= i64::MIN as i128 {
        wide as i64
    } else {
        i64::MIN
    }
}

/// Counters that were not touched for this long are reaped from the durable
/// backend.
pub const STALE_AFTER_SECONDS: u64 = 600;

/// The time before which a counter counts as stale at `now`, both in seconds
/// since the Unix epoch.
pub fn stale_cutoff(now: i64) -> (cutoff: i64)
    ensures
        cutoff == if now - STALE_AFTER_SECONDS >= i64::MIN {
            now - STALE_AFTER_SECONDS
        } else {
            i64::MIN as int
        },
{
    window_cutoff(now, STALE_AFTER_SECONDS)
}

/// The rule of the durable backend. `running_count` is the count of the
/// client's running window, or `None` if it has no running window.
pub fn primary_counter_update(running_count: Option<i32>, limit: u32) -> (update: CounterUpdate)
    ensures
        update == match running_count {
            None => CounterUpdate::Restart,
            Some(count) => if count >= limit {
                CounterUpdate::Reject
            } else {
                CounterUpdate::Increment
            },
        },
{
    match running_count {
        None => CounterUpdate::Restart,
        Some(count) => if count as i64 >= limit as i64 {
            CounterUpdate::Reject
        } else {
            CounterUpdate::Increment
        },
    }
}

/// The counter of a client after it made requests at the given times, in
/// order.
pub open spec fn window_after(
    prior: Option<RateWindow>,
    times: Seq<u64>,
    window_seconds: u64,
) -> Option<RateWindow>
    decreases times.len(),
{
    if times.len() == 0 {
        prior
    } else {
        Some(
            next_window(
                window_after(prior, times.drop_last(), window_seconds),
                times.last(),
                window_seconds,
            ),
        )
    }
}

/// Whether request number `index` of a sequence of requests is let through.
pub open spec fn allowed_at(
    prior: Option<RateWindow>,
    times: Seq<u64>,
    index: int,
    window_seconds: u64,
    limit: u32,
) -> bool {
    request_allowed(
        window_after(prior, times.take(index), window_seconds),
        times[index],
        window_seconds,
        limit,
    )
}

/// None of the times lies more than the window length after `start`.
pub open spec fn all_within(times: Seq<u64>, start: u64, window_seconds: u64) -> bool {
    forall|i: int|
        0 <= i < times.len() ==> elapsed(#[trigger] times[i], start) <= window_seconds
            * NANOS_PER_SECOND
}

/// The count of a window after `more` further requests.
pub open spec fn count_after(count: u32, more: nat) -> u32 {
    if count + more <= u32::MAX {
        (count + more) as u32
    } else {
        u32::MAX
    }
}

proof fn lemma_running_window(window: RateWindow, times: Seq<u64>, window_seconds: u64)
    requires
        all_within(times, window.window_start, window_seconds),
    ensures
        window_after(Some(window), times, window_seconds) == Some(
            RateWindow {
                window_start: window.window_start,
                count: count_after(window.count, times.len()),
            },
        ),
    decreases times.len(),
{
    if times.len() > 0 {
        let front = times.drop_last();
        assert forall|i: int| 0 <= i < front.len() implies elapsed(
            #[trigger] front[i],
            window.window_start,
        ) <= window_seconds * NANOS_PER_SECOND by {
            assert(front[i] == times[i]);
        }
        lemma_running_window(window, front, window_seconds);
        assert(elapsed(times[times.len() - 1], window.window_start) <= window_seconds
            * NANOS_PER_SECOND);
    }
}

proof fn lemma_window_after_first(times: Seq<u64>, window_seconds: u64)
    requires
        times.len() > 0,
    ensures
        window_after(None, times, window_seconds) == window_after(
            Some(RateWindow { window_start: times[0], count: 1 }),
            times.drop_first(),
            window_seconds,
        ),
    decreases times.len(),
{
    if times.len() == 1 {
        assert(times.drop_last().len() == 0);
        assert(times.drop_first().len() == 0);
    } else {
        lemma_window_after_first(times.drop_last(), window_seconds);
        assert(times.drop_last().drop_first() =~= times.drop_first().drop_last());
        assert(times.drop_last()[0] == times[0]);
        assert(times.drop_first().last() == times.last());
    }
}

/// A client that has no counter makes a run of requests, none of them more
/// than the window length after the first. Then the requests that are let
/// through are exactly the first `limit` ones.
pub proof fn lemma_quota_within_window(
    times: Seq<u64>,
    index: int,
    window_seconds: u64,
    limit: u32,
)
    requires
        0 <= index < times.len(),
        all_within(times, times[0], window_seconds),
    ensures
        allowed_at(None, times, index, window_seconds, limit) <==> index < limit,
{
    let earlier = times.take(index);
    if index == 0 {
        assert(earlier.len() == 0);
    } else {
        let first = RateWindow { window_start: times[0], count: 1 };
        lemma_window_after_first(earlier, window_seconds);
        let rest = earlier.drop_first();
        assert(earlier[0] == times[0]);
        assert forall|i: int| 0 <= i < rest.len() implies elapsed(#[trigger] rest[i], times[0])
            <= window_seconds * NANOS_PER_SECOND by {
            assert(rest[i] == times[i + 1]);
        }
        lemma_running_window(first, rest, window_seconds);
        assert(elapsed(times[index], times[0]) <= window_seconds * NANOS_PER_SECOND);
    }
}

/// After such a run, a request that comes more than the window length after
/// the first one is let through, whatever the run was, and begins a new window
/// in which it is the first request.
pub proof fn lemma_allowed_again_after_window(
    times: Seq<u64>,
    later: u64,
    window_seconds: u64,
    limit: u32,
)
    requires
        times.len() > 0,
        all_within(times, times[0], window_seconds),
        elapsed(later, times[0]) > window_seconds * NANOS_PER_SECOND,
    ensures
        request_allowed(window_after(None, times, window_seconds), later, window_seconds, limit),
        next_window(window_after(None, times, window_seconds), later, window_seconds) == (
        RateWindow { window_start: later, count: 1 }),
{
    let first = RateWindow { window_start: times[0], count: 1 };
    lemma_window_after_first(times, window_seconds);
    let rest = times.drop_first();
    assert forall|i: int| 0 <= i < rest.len() implies elapsed(#[trigger] rest[i], times[0])
        <= window_seconds * NANOS_PER_SECOND by {
        assert(rest[i] == times[i + 1]);
    }
    lemma_running_window(first, rest, window_seconds);
}

} // verus!
