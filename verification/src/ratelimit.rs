//! Per-client fixed-window rate limiter guarding the creation path.
//!
//! One counter is kept per client key. On each call the counter's window
//! is rolled forward when more than a full window has elapsed since it
//! started, and the call is admitted exactly when the rolled count is
//! still below the maximum. The windowing is approximate: bursts at a
//! window boundary may reach twice the maximum, an accepted trade-off of
//! the fixed-window scheme. The limiter can be switched off for a
//! permissive operational mode; counters are process-local and lost on
//! restart, which only resets the limits.

use std::collections::HashMap;
use vstd::prelude::*;

verus! {

broadcast use vstd::std_specs::hash::group_hash_axioms;

/// Returned when a client has exhausted its window's allowance.
pub struct TooManyRequests;

/// Default maximum number of admitted requests per client and window.
pub const MAX_REQUESTS_PER_IP: u32 = 10;

/// Default window length in seconds.
pub const RATE_LIMIT_DURATION_SECS: u64 = 60;

/// A client's counter: requests admitted since the window started, and
/// the second at which the window started.
pub struct WindowCounter {
    pub count: u32,
    pub window_start: u64,
}

/// Seconds gone by since `start`, saturating at zero for a clock that
/// appears to have moved backwards.
pub open spec fn elapsed_since(now: u64, start: u64) -> u64 {
    if now >= start {
        (now - start) as u64
    } else {
        0
    }
}

/// The counter taken as a basis for a request at `now`: the stored one,
/// or a fresh window for a client not seen before.
pub open spec fn counter_before(
    table: Map<u64, WindowCounter>,
    client: u64,
    now: u64,
) -> WindowCounter {
    if table.contains_key(client) {
        table[client]
    } else {
        WindowCounter { count: 0, window_start: now }
    }
}

/// The counter after rolling the window forward: reset exactly when more
/// than a full window has elapsed since it started.
pub open spec fn counter_rolled(c: WindowCounter, window_secs: u64, now: u64) -> WindowCounter {
    if elapsed_since(now, c.window_start) > window_secs {
        WindowCounter { count: 0, window_start: now }
    } else {
        c
    }
}

/// Within its window a counter is taken as it stands, so the count can
/// only grow until the window is crossed.
pub proof fn lemma_counter_kept_within_window(c: WindowCounter, window_secs: u64, now: u64)
    requires
        elapsed_since(now, c.window_start) <= window_secs,
    ensures
        counter_rolled(c, window_secs, now) == c,
{
}

/// Crossing the window resets the counter exactly once: to zero, with
/// the window restarted at the time of the crossing call.
pub proof fn lemma_counter_reset_on_crossing(c: WindowCounter, window_secs: u64, now: u64)
    requires
        elapsed_since(now, c.window_start) > window_secs,
    ensures
        counter_rolled(c, window_secs, now) == (WindowCounter { count: 0, window_start: now }),
{
}

/// A client whose count has reached the limit stays rejected for the
/// rest of its window, and is admitted again once more than a full
/// window has elapsed: the rolled counter that `rate_limit` decides by
/// keeps the exhausted count until the crossing, and is reset to zero
/// at it.
pub proof fn lemma_exhausted_until_window_crossed(
    table: Map<u64, WindowCounter>,
    limit: u32,
    window_secs: u64,
    client: u64,
    now: u64,
)
    requires
        table.contains_key(client),
        table[client].count >= limit,
    ensures
        elapsed_since(now, table[client].window_start) <= window_secs ==> counter_rolled(
            counter_before(table, client, now),
            window_secs,
            now,
        ).count >= limit,
        elapsed_since(now, table[client].window_start) > window_secs ==> counter_rolled(
            counter_before(table, client, now),
            window_secs,
            now,
        ).count == 0,
{
}

/// Per-client fixed-window request gate.
pub struct RateLimiter {
    max_requests: u32,
    window_secs: u64,
    enforce: bool,
    counters: HashMap<u64, WindowCounter>,
}

impl RateLimiter {
    /// The counter table as a map from client key to its counter.
    pub closed spec fn table(&self) -> Map<u64, WindowCounter> {
        self.counters@
    }

    /// Admitted requests per client and window before rejection.
    pub closed spec fn limit(&self) -> u32 {
        self.max_requests
    }

    /// Window length in seconds.
    pub closed spec fn window(&self) -> u64 {
        self.window_secs
    }

    /// Whether the limiter is enforcing (false in the permissive mode).
    pub closed spec fn enforcing(&self) -> bool {
        self.enforce
    }

    /// A limiter with the given bounds and no client seen yet.
    pub fn new(max_requests: u32, window_secs: u64, enforce: bool) -> (r: RateLimiter)
        ensures
            r.limit() == max_requests,
            r.window() == window_secs,
            r.enforcing() == enforce,
            r.table() == Map::<u64, WindowCounter>::empty(),
    {
        RateLimiter { max_requests, window_secs, enforce, counters: HashMap::new() }
    }

    /// A limiter with the default bounds.
    pub fn with_default_limits(enforce: bool) -> (r: RateLimiter)
        ensures
            r.limit() == MAX_REQUESTS_PER_IP,
            r.window() == RATE_LIMIT_DURATION_SECS,
            r.enforcing() == enforce,
            r.table() == Map::<u64, WindowCounter>::empty(),
    {
        RateLimiter::new(MAX_REQUESTS_PER_IP, RATE_LIMIT_DURATION_SECS, enforce)
    }

    /// Gate one request from `client` at time `now` (seconds).
    ///
    /// When enforcing, the client's counter window is rolled forward if
    /// more than a full window has elapsed, the request is admitted
    /// exactly when the rolled count is below the maximum, and an
    /// admitted request is counted. The rolled counter is stored even on
    /// rejection, so the count never decreases within a window and is
    /// reset exactly once per window crossing. In the permissive mode
    /// every request is admitted and the table is untouched.
    pub fn rate_limit(&mut self, client: u64, now: u64) -> (r: Result<(), TooManyRequests>)
        ensures
            final(self).limit() == old(self).limit(),
            final(self).window() == old(self).window(),
            final(self).enforcing() == old(self).enforcing(),
            !old(self).enforcing() ==> (r matches Ok(_)) && final(self).table() == old(self).table(),
            old(self).enforcing() ==> ({
                let rolled = counter_rolled(
                    counter_before(old(self).table(), client, now),
                    old(self).window(),
                    now,
                );
                if rolled.count < old(self).limit() {
                    &&& r matches Ok(_)
                    &&& final(self).table() == old(self).table().insert(
                        client,
                        WindowCounter { count: (rolled.count + 1) as u32, window_start: rolled.window_start },
                    )
                } else {
                    &&& r matches Err(_)
                    &&& final(self).table() == old(self).table().insert(client, rolled)
                }
            }),
    {
        if !self.enforce {
            return Ok(());
        }
        let (mut count, mut start): (u32, u64) = match self.counters.get(&client) {
            Some(c) => (c.count, c.window_start),
            None => (0, now),
        };
        let elapsed = if now >= start {
            now - start
        } else {
            0
        };
        if elapsed > self.window_secs {
            count = 0;
            start = now;
        }
        if count >= self.max_requests {
            self.counters.insert(client, WindowCounter { count, window_start: start });
            Err(TooManyRequests)
        } else {
            self.counters.insert(client, WindowCounter { count: count + 1, window_start: start });
            Ok(())
        }
    }
}

} // verus!
