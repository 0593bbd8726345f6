//! The grenade's fuse: it goes off once, after more than two whole seconds.
use vstd::prelude::*;
use crate::time::{Time, elapsed_ms};

verus! {

/// A grenade's fuse: when it was thrown and whether it has gone off.
#[derive(Clone, Copy, PartialEq, Eq, Structural)]
pub struct Grenade {
    pub spawned: Time,
    pub exploded: bool,
}

/// Whole seconds in `ms`, rounded toward zero.
pub open spec fn whole_seconds(ms: int) -> int {
    if ms >= 0 { ms / 1000 } else { -((-ms) / 1000) }
}

impl Grenade {
    /// A grenade thrown at `now`.
    pub fn new(now: Time) -> (g: Self)
        ensures
            g == (Grenade { spawned: now, exploded: false }),
    {
        Self { spawned: now, exploded: false }
    }

    /// One step of the fuse at `now`: the grenade goes off (the result is
    /// `true`, and it is marked as exploded) when more than two whole seconds
    /// have passed since it was thrown and it has not gone off yet.
    pub fn tick(&mut self, now: Time) -> (explode: bool)
        ensures
            explode == (whole_seconds(elapsed_ms(old(self).spawned, now)) > 2 && !old(self).exploded),
            explode == (whole_seconds(now.millis - old(self).spawned.millis) > 2 && !old(self).exploded),
            final(self).spawned == old(self).spawned,
            final(self).exploded == (old(self).exploded || explode),
    {
        // more than two whole seconds: at least 3000 ms
        if self.spawned.elapsed_more_than(now, 2999) && self.exploded == false {
            self.exploded = true;
            return true;
        }
        false
    }
}

} // verus!
