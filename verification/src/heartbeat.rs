//! Heartbeat monitor: tracks time-since-last-datum for one active session.
//!
//! Any datagram arrival on the data channel counts as liveness, whether or
//! not its payload decodes.  Time is a monotone count of elapsed
//! milliseconds handed in by the caller; the monitor never reads a clock
//! itself.  A fresh monitor is constructed for each session.

use vstd::prelude::*;

verus! {

/// Default staleness timeout in milliseconds.  Tighter timeouts caused
/// spurious churn, so the longer observed value is the default; the
/// listener takes the timeout as configuration.
pub const DEFAULT_TIMEOUT_MS: u64 = 10_000;

/// Last-datum-received timestamp, in caller-supplied milliseconds.
#[derive(Clone, Copy, Debug, PartialEq, Eq, Structural)]
pub struct HeartbeatMonitor {
    pub last_arrival_ms: u64,
}

impl HeartbeatMonitor {
    /// Milliseconds elapsed since the last arrival, saturating at zero for
    /// a clock reading older than the arrival.
    pub open spec fn spec_elapsed(self, now_ms: u64) -> int {
        if now_ms >= self.last_arrival_ms {
            now_ms - self.last_arrival_ms
        } else {
            0
        }
    }

    /// Whether the session is stale at `now_ms`: strictly more than
    /// `timeout_ms` elapsed since the last arrival.
    pub open spec fn spec_is_stale(self, now_ms: u64, timeout_ms: u64) -> bool {
        self.spec_elapsed(now_ms) > timeout_ms
    }

    /// A monitor whose last arrival is the moment of construction.
    pub fn new(now_ms: u64) -> (r: HeartbeatMonitor)
        ensures
            r.last_arrival_ms == now_ms,
    {
        HeartbeatMonitor { last_arrival_ms: now_ms }
    }

    /// Resets the last-arrival timestamp to `now_ms`.
    pub fn record_arrival(&mut self, now_ms: u64)
        ensures
            final(self).last_arrival_ms == now_ms,
    {
        self.last_arrival_ms = now_ms;
    }

    /// Whether strictly more than `timeout_ms` elapsed since the last
    /// arrival.
    pub fn is_stale(&self, now_ms: u64, timeout_ms: u64) -> (r: bool)
        ensures
            r == self.spec_is_stale(now_ms, timeout_ms),
    {
        if now_ms >= self.last_arrival_ms {
            now_ms - self.last_arrival_ms > timeout_ms
        } else {
            false
        }
    }
}

/// Recording an arrival and checking staleness at the same instant is never
/// stale, whatever the timeout.
pub proof fn lemma_arrival_never_immediately_stale(m: HeartbeatMonitor, now_ms: u64, timeout_ms: u64)
    requires
        m.last_arrival_ms == now_ms,
    ensures
        !m.spec_is_stale(now_ms, timeout_ms),
{
}

/// Once the timeout has elapsed with no arrival, the monitor is stale, and
/// it stays stale at every later instant until the next arrival (staleness
/// is monotone in the clock while the last arrival is unchanged).
pub proof fn lemma_stale_after_timeout_and_monotone(
    m: HeartbeatMonitor,
    now_ms: u64,
    later_ms: u64,
    timeout_ms: u64,
)
    requires
        m.spec_elapsed(now_ms) > timeout_ms,
        later_ms >= now_ms,
    ensures
        m.spec_is_stale(now_ms, timeout_ms),
        m.spec_is_stale(later_ms, timeout_ms),
{
}

} // verus!
