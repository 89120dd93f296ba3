//! Fixed-window request limiting per client address.
//!
//! Times are nanoseconds on a monotonic clock chosen by the caller.

use vstd::prelude::*;
use crate::utils::table::TextTable;

verus! {

/// Request counting for one client address.
#[derive(Debug, Clone, Copy, PartialEq, Eq)]
pub struct RateLimitState {
    /// When the current window began.
    pub start_time: u128,
    /// Requests admitted in the current window.
    pub request_count: usize,
}

/// Limits of the rate limiter.
#[derive(Debug, Clone, Copy, PartialEq, Eq)]
pub struct RateLimiterConfig {
    /// Maximum requests admitted per window.
    pub max_requests: usize,
    /// Window length in seconds.
    pub window_size: u64,
}

impl Default for RateLimiterConfig {
    fn default() -> (c: RateLimiterConfig)
        ensures
            c.max_requests == 100,
            c.window_size == 60,
    {
        RateLimiterConfig { max_requests: 100, window_size: 60 }
    }
}

/// Window length in nanoseconds.
pub open spec fn window_ns(config: RateLimiterConfig) -> int {
    config.window_size * 1_000_000_000
}

/// Time from `start` to `now`, zero if `now` is earlier.
pub open spec fn elapsed_ns(now: u128, start: u128) -> int {
    if now >= start {
        now - start
    } else {
        0
    }
}

/// The most requests a window can hold: the first request of a window is
/// always admitted, so a limit of zero still admits one.
pub open spec fn window_capacity(config: RateLimiterConfig) -> int {
    if config.max_requests >= 1 {
        config.max_requests as int
    } else {
        1
    }
}

/// Whether a request at `now` is admitted, and the client's state after it.
pub open spec fn spec_admit(config: RateLimiterConfig, bucket: Option<RateLimitState>, now: u128) -> (bool, RateLimitState) {
    match bucket {
        None => (true, RateLimitState { start_time: now, request_count: 1 }),
        Some(b) => {
            if elapsed_ns(now, b.start_time) > window_ns(config) {
                (true, RateLimitState { start_time: now, request_count: 1 })
            } else if b.request_count < config.max_requests {
                (true, RateLimitState { start_time: b.start_time, request_count: (b.request_count + 1) as usize })
            } else {
                (false, b)
            }
        },
    }
}

/// Quota information attached to an admitted response.
#[derive(Debug, Clone, Copy, PartialEq, Eq)]
pub struct RateLimitHeaders {
    /// `X-RateLimit-Limit`.
    pub limit: usize,
    /// `X-RateLimit-Remaining`.
    pub remaining: usize,
    /// `X-RateLimit-Reset`, in whole seconds.
    pub reset: u64,
}

/// Quota information for a client whose window began at `b.start_time`.
pub open spec fn spec_headers(config: RateLimiterConfig, b: RateLimitState, now: u128) -> RateLimitHeaders {
    RateLimitHeaders {
        limit: config.max_requests,
        remaining: if b.request_count <= config.max_requests {
            (config.max_requests - b.request_count) as usize
        } else {
            0
        },
        reset: if elapsed_ns(now, b.start_time) <= window_ns(config) {
            ((window_ns(config) - elapsed_ns(now, b.start_time)) / 1_000_000_000) as u64
        } else {
            0
        },
    }
}

/// Request counters of all clients, keyed by address.
pub struct IpRateLimiter {
    pub config: RateLimiterConfig,
    state: TextTable<RateLimitState>,
}

impl IpRateLimiter {
    /// The limits in force.
    pub closed spec fn limits(&self) -> RateLimiterConfig {
        self.config
    }

    /// The counters, keyed by client address.
    pub closed spec fn buckets(&self) -> Map<Seq<char>, RateLimitState> {
        self.state@
    }

    /// Well-formedness: the table is sound and every window holds between
    /// one and `window_capacity` admitted requests.
    pub closed spec fn wf(&self) -> bool {
        &&& self.state.wf()
        &&& forall|ip: Seq<char>| #[trigger] self.state@.contains_key(ip) ==>
                1 <= self.state@[ip].request_count <= window_capacity(self.config)
    }

    /// A limiter with no recorded requests.
    pub fn new(config: RateLimiterConfig) -> (l: IpRateLimiter)
        ensures
            l.wf(),
            l.limits() == config,
            l.buckets() == Map::<Seq<char>, RateLimitState>::empty(),
    {
        IpRateLimiter { config, state: TextTable::new() }
    }

    /// A limiter admitting `max_requests` per window of `window_size` seconds.
    pub fn with_config(max_requests: usize, window_size: u64) -> (l: IpRateLimiter)
        ensures
            l.wf(),
            l.limits().max_requests == max_requests,
            l.limits().window_size == window_size,
            l.buckets() == Map::<Seq<char>, RateLimitState>::empty(),
    {
        Self::new(RateLimiterConfig { max_requests, window_size })
    }

    /// The counter of a client, if it has made requests.
    pub fn bucket(&self, ip: &str) -> (r: Option<RateLimitState>)
        requires
            self.wf(),
        ensures
            r == (if self.buckets().contains_key(ip@) { Some(self.buckets()[ip@]) } else { None }),
    {
        self.state.get(ip)
    }

    /// Decides whether a request from `ip` at time `now` is admitted and
    /// records it: a new client or an expired window starts a fresh window,
    /// a window with room counts the request, a full window refuses it and
    /// changes nothing.
    pub fn check_request(&mut self, ip: &str, now: u128) -> (allowed: bool)
        requires
            old(self).wf(),
        ensures
            final(self).wf(),
            final(self).limits() == old(self).limits(),
            ({
                let prev = if old(self).buckets().contains_key(ip@) {
                    Some(old(self).buckets()[ip@])
                } else {
                    None
                };
                let (ok, next) = spec_admit(old(self).limits(), prev, now);
                &&& allowed == ok
                &&& final(self).buckets() == old(self).buckets().insert(ip@, next)
                &&& !allowed ==> final(self).buckets() == old(self).buckets()
            }),
    {
        let window: u128 = (self.config.window_size as u128) * 1_000_000_000;
        match self.state.get(ip) {
            None => {
                self.state.insert(ip, RateLimitState { start_time: now, request_count: 1 });
                true
            },
            Some(b) => {
                let elapsed: u128 = if now >= b.start_time { now - b.start_time } else { 0 };
                if elapsed > window {
                    self.state.insert(ip, RateLimitState { start_time: now, request_count: 1 });
                    true
                } else if b.request_count < self.config.max_requests {
                    self.state.insert(
                        ip,
                        RateLimitState { start_time: b.start_time, request_count: b.request_count + 1 },
                    );
                    true
                } else {
                    proof {
                        assert(self.state@.insert(ip@, b) =~= self.state@);
                    }
                    false
                }
            },
        }
    }

    /// Quota information for the response to an admitted request from `ip`
    /// that arrived at `now`; `None` if the client has no counter.
    pub fn quota_headers(&self, ip: &str, now: u128) -> (h: Option<RateLimitHeaders>)
        requires
            self.wf(),
        ensures
            match h {
                Some(h) => self.buckets().contains_key(ip@) && h == spec_headers(self.limits(), self.buckets()[ip@], now),
                None => !self.buckets().contains_key(ip@),
            },
    {
        match self.state.get(ip) {
            None => None,
            Some(b) => {
                let window: u128 = (self.config.window_size as u128) * 1_000_000_000;
                let elapsed: u128 = if now >= b.start_time { now - b.start_time } else { 0 };
                let remaining: usize = if b.request_count <= self.config.max_requests {
                    self.config.max_requests - b.request_count
                } else {
                    0
                };
                let reset: u64 = if elapsed <= window {
                    let secs: u128 = (window - elapsed) / 1_000_000_000;
                    assert(secs <= self.config.window_size);
                    secs as u64
                } else {
                    0
                };
                Some(RateLimitHeaders { limit: self.config.max_requests, remaining, reset })
            },
        }
    }

    /// Quota information for a refused request: nothing remains, and the
    /// client is told to retry after a whole window.
    pub fn refusal_headers(&self) -> (h: RateLimitHeaders)
        ensures
            h.limit == self.limits().max_requests,
            h.remaining == 0,
            h.reset == self.limits().window_size,
    {
        RateLimitHeaders { limit: self.config.max_requests, remaining: 0, reset: self.config.window_size }
    }
}

/// Folds the admission rule over requests from one client at the given
/// times; returns how many were admitted and the client's final state.
pub open spec fn spec_run_requests(config: RateLimiterConfig, bucket: Option<RateLimitState>, times: Seq<u128>) -> (nat, Option<RateLimitState>)
    decreases times.len(),
{
    if times.len() == 0 {
        (0, bucket)
    } else {
        let (ok, next) = spec_admit(config, bucket, times[0]);
        let (n, last) = spec_run_requests(config, Some(next), times.drop_first());
        (if ok { n + 1 } else { n }, last)
    }
}

/// Within one window begun at `start`, a client that already made
/// `b.request_count` requests gets at most the remaining capacity admitted.
pub proof fn window_quota_from(config: RateLimiterConfig, b: RateLimitState, times: Seq<u128>)
    requires
        1 <= b.request_count <= window_capacity(config),
        forall|i: int| 0 <= i < times.len() ==> #[trigger] elapsed_ns(times[i], b.start_time) <= window_ns(config),
    ensures
        spec_run_requests(config, Some(b), times).0 == if times.len() <= window_capacity(config) - b.request_count {
            times.len() as int
        } else {
            window_capacity(config) - b.request_count
        },
    decreases times.len(),
{
    if times.len() > 0 {
        assert(elapsed_ns(times[0], b.start_time) <= window_ns(config));
        let (ok, next) = spec_admit(config, Some(b), times[0]);
        let rest = times.drop_first();
        assert forall|i: int| 0 <= i < rest.len() implies #[trigger] elapsed_ns(rest[i], next.start_time) <= window_ns(config) by {
            assert(rest[i] == times[i + 1]);
        }
        window_quota_from(config, next, rest);
    }
}

/// In a window opened by a client's first request at `times[0]`, the
/// number of its requests admitted within the window is the number made,
/// capped at `max_requests` (at least one).
pub proof fn window_quota(config: RateLimiterConfig, times: Seq<u128>)
    requires
        times.len() > 0,
        forall|i: int| 0 <= i < times.len() ==> #[trigger] elapsed_ns(times[i], times[0]) <= window_ns(config),
    ensures
        spec_run_requests(config, None, times).0 == if times.len() <= window_capacity(config) {
            times.len() as int
        } else {
            window_capacity(config)
        },
{
    let first = RateLimitState { start_time: times[0], request_count: 1 };
    let rest = times.drop_first();
    assert forall|i: int| 0 <= i < rest.len() implies #[trigger] elapsed_ns(rest[i], first.start_time) <= window_ns(config) by {
        assert(rest[i] == times[i + 1]);
    }
    window_quota_from(config, first, rest);
}

/// A request arriving after the client's window has passed is admitted
/// and opens a new window.
pub proof fn expired_window_admits(config: RateLimiterConfig, b: RateLimitState, now: u128)
    requires
        elapsed_ns(now, b.start_time) > window_ns(config),
    ensures
        spec_admit(config, Some(b), now) == (true, RateLimitState { start_time: now, request_count: 1 }),
{
}

/// Every client's count of requests admitted in its current window lies
/// between one and the window's capacity (`max_requests`, at least one).
/// `new` and `with_config` establish `wf` and `check_request` keeps it, so
/// this holds after every call.
pub proof fn counts_stay_within_capacity(l: &IpRateLimiter, ip: Seq<char>)
    requires
        l.wf(),
        l.buckets().contains_key(ip),
    ensures
        1 <= l.buckets()[ip].request_count <= window_capacity(l.limits()),
{
}

} // verus!
