//! Points in time, as milliseconds since the Unix epoch.
use vstd::prelude::*;

verus! {

/// A point in time: milliseconds since the Unix epoch. The clock is read by
/// the caller; the library only compares and stores points in time.
#[derive(Clone, Copy, PartialEq, Eq, Structural, Debug)]
pub struct Time {
    pub millis: u64,
}

/// Milliseconds from `then` to `now` (negative if `now` is earlier).
pub open spec fn elapsed_ms(then: Time, now: Time) -> int {
    now.millis - then.millis
}

impl Time {
    /// The point in time `millis` milliseconds after the epoch.
    pub fn new(millis: u64) -> (t: Time)
        ensures
            t.millis == millis,
    {
        Time { millis }
    }

    /// Whether fewer than `ms` milliseconds have passed from `self` to `now`.
    pub fn elapsed_less_than(&self, now: Time, ms: i64) -> (r: bool)
        ensures
            r == (elapsed_ms(*self, now) < ms),
            r == (now.millis - self.millis < ms),
    {
        (now.millis as i128) - (self.millis as i128) < (ms as i128)
    }

    /// Whether more than `ms` milliseconds have passed from `self` to `now`.
    pub fn elapsed_more_than(&self, now: Time, ms: i64) -> (r: bool)
        ensures
            r == (elapsed_ms(*self, now) > ms),
            r == (now.millis - self.millis > ms),
    {
        (now.millis as i128) - (self.millis as i128) > (ms as i128)
    }
}

/// The time elapsed between two points is their exact difference in
/// milliseconds, with nothing lost however far apart they are; elapsed times
/// add up along a chain of points, and the time from a point back to an
/// earlier one is the negative of the time forward.
pub proof fn lemma_elapsed_exact(a: Time, b: Time, c: Time)
    ensures
        elapsed_ms(a, b) == b.millis - a.millis,
        elapsed_ms(a, b) + elapsed_ms(b, c) == elapsed_ms(a, c),
        elapsed_ms(b, a) == -elapsed_ms(a, b),
        elapsed_ms(a, a) == 0,
{
}

} // verus!
