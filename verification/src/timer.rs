use vstd::prelude::*;

verus! {

/// The staleness timer: the instant of the last successful refresh, in
/// seconds of a caller-supplied clock.
///
/// The clock value is injected into every operation instead of being read
/// ambiently, so the gating logic is a pure function of state and time and
/// can be exercised deterministically.
#[derive(Clone, Copy, Debug, PartialEq, Eq, Structural)]
pub struct RefreshTimer {
    /// Seconds at the last successful refresh; monotonically moved forward
    /// only by an explicit reset.
    pub last: u64,
}

impl RefreshTimer {
    /// Seconds elapsed since the last reset; a clock that went backwards
    /// reads as zero elapsed rather than underflowing.
    pub open spec fn spec_elapsed(self, now: u64) -> int {
        if now >= self.last {
            now - self.last
        } else {
            0
        }
    }

    /// More than `threshold` seconds have passed: strictly greater, so an
    /// elapsed time exactly equal to the threshold is not yet stale.
    pub open spec fn spec_is_stale(self, now: u64, threshold: u64) -> bool {
        self.spec_elapsed(now) > threshold
    }

    /// A timer that reads as last refreshed at `start`.
    pub fn new(start: u64) -> (t: RefreshTimer)
        ensures
            t.last == start,
    {
        RefreshTimer { last: start }
    }

    /// Seconds elapsed at `now` since the last reset.
    pub fn elapsed(&self, now: u64) -> (e: u64)
        ensures
            e == self.spec_elapsed(now),
    {
        if now >= self.last {
            now - self.last
        } else {
            0
        }
    }

    /// Whether more than `threshold` seconds have elapsed at `now`.
    pub fn is_stale(&self, now: u64, threshold: u64) -> (b: bool)
        ensures
            b == self.spec_is_stale(now, threshold),
    {
        self.elapsed(now) > threshold
    }

    /// Record a successful refresh at `now`.
    pub fn reset(&mut self, now: u64)
        ensures
            final(self).last == now,
    {
        self.last = now;
    }
}

} // verus!
