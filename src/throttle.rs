//! A passive gate that bounds how often the selection is redrawn.
use vstd::prelude::*;

verus! {

/// Nanoseconds in half a second.
pub const NANOS_PER_HALF_SECOND: u64 = 500_000_000;

/// The target redraw rate, in frames per second.
pub const REFRESH_RATE: u64 = 60;

/// The least time between two throttled redraws: half a frame period at the
/// target rate, in nanoseconds.
pub const MIN_TIME_BETWEEN_UPDATES: u64 = NANOS_PER_HALF_SECOND / REFRESH_RATE;

/// Times are monotonic clock readings in nanoseconds.
#[derive(Copy, Clone, Debug, PartialEq, Eq, Structural)]
pub struct Throttle {
    /// When the last redraw was accepted.
    pub last_accepted: u64,
    /// How long after an accepted redraw the next one is refused.
    pub min_interval: u64,
}

/// A redraw at `now` is allowed once strictly more than the minimum
/// interval has passed since the last accepted one.
pub open spec fn allows(t: Throttle, now: u64) -> bool {
    now as int - t.last_accepted as int > t.min_interval as int
}

/// The throttle after a redraw at `now` was accepted.
pub open spec fn accepted(t: Throttle, now: u64) -> Throttle {
    Throttle { last_accepted: now, ..t }
}

impl Throttle {
    /// A throttle whose last accepted redraw was at `start`.
    pub fn new(start: u64, min_interval: u64) -> (t: Self)
        ensures
            t == (Throttle { last_accepted: start, min_interval }),
    {
        Throttle { last_accepted: start, min_interval }
    }

    /// A throttle for a target rate of `rate` frames per second: it lets one
    /// redraw through per half frame period.
    pub fn for_rate(start: u64, rate: u64) -> (t: Self)
        requires
            rate > 0,
        ensures
            t == (Throttle { last_accepted: start, min_interval: NANOS_PER_HALF_SECOND / rate }),
    {
        Throttle { last_accepted: start, min_interval: NANOS_PER_HALF_SECOND / rate }
    }

    /// Whether a redraw at `now` is allowed. This leaves the throttle as it
    /// is; a caller that redraws records it with `accept`.
    pub fn allow_redraw(&self, now: u64) -> (r: bool)
        ensures
            r == allows(*self, now),
    {
        now > self.last_accepted && now - self.last_accepted > self.min_interval
    }

    /// Records a redraw at `now`.
    pub fn accept(&mut self, now: u64)
        ensures
            *final(self) == accepted(*old(self), now),
    {
        self.last_accepted = now;
    }
}

/// Of two redraw requests at `a` and then `b`, no more than the minimum
/// interval apart, at most one is accepted; when they are further apart and
/// the first is accepted, so is the second.
pub proof fn lemma_throttle_spacing(t: Throttle, a: u64, b: u64)
    requires
        a <= b,
    ensures
        b - a <= t.min_interval ==> !(allows(t, a) && allows(accepted(t, a), b)),
        b - a > t.min_interval && allows(t, a) ==> allows(accepted(t, a), b),
{
}

} // verus!
