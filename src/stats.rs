//! Memory occupancy and the refresh throttle that guards the telemetry snapshot.
use vstd::prelude::*;

verus! {

/// Minimum time between two full telemetry refreshes, in milliseconds.
pub const SYSTEM_INFO_REFRESH_MS: u64 = 1000;

/// Minimum time between two weather lookups, in milliseconds.
pub const WEATHER_REFRESH_MS: u64 = 600_000;

/// A percentage kept as an exact fraction: `numerator / denominator` percent.
#[derive(Clone, Copy, PartialEq, Eq, Debug, Structural)]
pub struct Percentage {
    pub numerator: u128,
    pub denominator: u64,
}

/// Memory occupancy, `used / total * 100` percent; zero when the total is zero.
pub fn ram_usage(used: u64, total: u64) -> (p: Percentage)
    ensures
        p.denominator > 0,
        total == 0 ==> p == (Percentage { numerator: 0, denominator: 1 }),
        total > 0 ==> p.numerator == used as int * 100 && p.denominator == total,
{
    if total == 0 {
        Percentage { numerator: 0, denominator: 1 }
    } else {
        Percentage { numerator: (used as u128) * 100, denominator: total }
    }
}

/// A cached value that is recomputed at most once per interval.
pub struct Throttled<T> {
    /// Minimum time between two recomputations, in milliseconds.
    pub interval_ms: u64,
    /// When the value was last recomputed, in milliseconds, if ever.
    pub last_refresh: Option<u64>,
    /// The value last computed.
    pub value: T,
}

impl<T> Throttled<T> {
    /// A recomputation is due at `now`: never done, or at least the interval
    /// has passed since the last one.
    pub open spec fn due(&self, now: u64) -> bool {
        match self.last_refresh {
            None => true,
            Some(t) => now >= t + self.interval_ms,
        }
    }

    /// A throttle holding `initial`, due at once.
    pub fn new(interval_ms: u64, initial: T) -> (r: Self)
        ensures
            r.interval_ms == interval_ms,
            r.last_refresh == None::<u64>,
            r.value == initial,
    {
        Throttled { interval_ms, last_refresh: None, value: initial }
    }

    /// Tells whether a recomputation is due at `now`.
    pub fn is_due(&self, now: u64) -> (r: bool)
        ensures
            r == self.due(now),
    {
        match self.last_refresh {
            None => true,
            Some(t) => now >= t && now - t >= self.interval_ms,
        }
    }

    /// Recomputes the value with `compute` if a recomputation is due at `now`,
    /// recording `now`; otherwise leaves everything as it was, so the cached
    /// value is kept bit for bit. Returns whether it recomputed.
    pub fn refresh<F: FnOnce() -> T>(&mut self, now: u64, compute: F) -> (done: bool)
        requires
            call_requires(compute, ()),
        ensures
            done == old(self).due(now),
            done ==> final(self).interval_ms == old(self).interval_ms && final(self).last_refresh
                == Some(now) && call_ensures(compute, (), final(self).value),
            !done ==> *final(self) == *old(self),
    {
        if self.is_due(now) {
            self.value = compute();
            self.last_refresh = Some(now);
            true
        } else {
            false
        }
    }

    /// The value last computed.
    pub fn current(&self) -> (r: &T)
        ensures
            *r == self.value,
    {
        &self.value
    }
}

/// Two refreshes less than the interval apart: the second recomputes nothing
/// and leaves the cache, its value included, exactly as the first left it.
pub proof fn lemma_refresh_within_interval<T>(first: Throttled<T>, t1: u64, t2: u64)
    requires
        first.last_refresh == Some(t1),
        t1 <= t2,
        t2 < t1 + first.interval_ms,
    ensures
        !first.due(t2),
{
}

} // verus!
