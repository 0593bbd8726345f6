//! The flash drawn at a gun's muzzle, and the difference that is sent over the
//! network to keep the copies of a flash in step.
use vstd::prelude::*;
use crate::time::{Time, elapsed_ms};

verus! {

/// A muzzle flash: when it last flashed, the sprite it shows and for how long
/// (in nanoseconds) it stays visible after a flash.
pub struct MuzzleFlash {
    pub last_flash: Time,
    pub sprite: String,
    pub duration_nanos: u128,
}

/// What changed from one muzzle flash to another: whether it flashed in
/// between, and the new sprite and duration where those changed.
pub struct MuzzleFlashDiff {
    pub flash: bool,
    pub sprite: Option<String>,
    pub duration_nanos: Option<u128>,
}

/// The mathematical value of a muzzle flash.
pub struct MuzzleFlashView {
    pub last_flash: Time,
    pub sprite: Seq<char>,
    pub duration_nanos: u128,
}

/// The mathematical value of a muzzle-flash difference.
pub struct MuzzleFlashDiffView {
    pub flash: bool,
    pub sprite: Option<Seq<char>>,
    pub duration_nanos: Option<u128>,
}

impl View for MuzzleFlash {
    type V = MuzzleFlashView;

    open spec fn view(&self) -> MuzzleFlashView {
        MuzzleFlashView {
            last_flash: self.last_flash,
            sprite: self.sprite@,
            duration_nanos: self.duration_nanos,
        }
    }
}

impl View for MuzzleFlashDiff {
    type V = MuzzleFlashDiffView;

    open spec fn view(&self) -> MuzzleFlashDiffView {
        MuzzleFlashDiffView {
            flash: self.flash,
            sprite: match self.sprite {
                Some(s) => Some(s@),
                None => None,
            },
            duration_nanos: self.duration_nanos,
        }
    }
}

/// The difference from `a` to `b`: `flash` when they last flashed at
/// different times; the sprite and the duration of `b` where they differ.
pub open spec fn diff_spec(a: MuzzleFlashView, b: MuzzleFlashView) -> MuzzleFlashDiffView {
    MuzzleFlashDiffView {
        flash: a.last_flash != b.last_flash,
        sprite: if a.sprite != b.sprite { Some(b.sprite) } else { None },
        duration_nanos: if a.duration_nanos != b.duration_nanos { Some(b.duration_nanos) } else { None },
    }
}

/// `m` after applying the difference `d` at time `now`: a flash in `d`
/// flashes `m` now; a sprite or duration in `d` replaces `m`'s.
pub open spec fn apply_spec(m: MuzzleFlashView, d: MuzzleFlashDiffView, now: Time) -> MuzzleFlashView {
    MuzzleFlashView {
        last_flash: if d.flash { now } else { m.last_flash },
        sprite: match d.sprite {
            Some(s) => s,
            None => m.sprite,
        },
        duration_nanos: match d.duration_nanos {
            Some(n) => n,
            None => m.duration_nanos,
        },
    }
}

/// Whole milliseconds in `nanos`, converted to `i64` as the game converts it
/// (wrapping, as Rust's `as` does).
pub open spec fn duration_millis_i64(nanos: u128) -> i64 {
    (nanos / 1_000_000) as i64
}

impl MuzzleFlash {
    /// Flashes now.
    pub fn flash(&mut self, now: Time)
        ensures
            final(self)@ == (MuzzleFlashView { last_flash: now, ..old(self)@ }),
    {
        self.last_flash = now;
    }

    /// A muzzle flash showing `sprite_path` for `duration_nanos` after each
    /// flash. It has not flashed yet (its last flash is at the epoch).
    pub fn new(sprite_path: String, duration_nanos: u128) -> (m: Self)
        ensures
            m@ == (MuzzleFlashView { last_flash: Time { millis: 0 }, sprite: sprite_path@, duration_nanos }),
    {
        Self { last_flash: Time::new(0), sprite: sprite_path, duration_nanos }
    }

    /// Whether the flash is drawn at `now`: it is hidden once more whole
    /// milliseconds have passed since the last flash than the duration holds.
    pub fn is_visible(&self, now: Time) -> (r: bool)
        ensures
            r == !(elapsed_ms(self.last_flash, now) > duration_millis_i64(self.duration_nanos)),
            r == !(now.millis - self.last_flash.millis > duration_millis_i64(self.duration_nanos)),
    {
        #[verifier::truncate]
        let limit: i64 = (self.duration_nanos / 1_000_000) as i64;
        !self.last_flash.elapsed_more_than(now, limit)
    }

    /// The difference from `self` to `other`.
    pub fn diff(&self, other: &Self) -> (d: MuzzleFlashDiff)
        ensures
            d@ == diff_spec(self@, other@),
    {
        let mut diff = MuzzleFlashDiff { flash: false, sprite: None, duration_nanos: None };
        if other.last_flash != self.last_flash {
            diff.flash = true;
        }
        if other.sprite != self.sprite {
            diff.sprite = Some(other.sprite.clone());
        }
        if other.duration_nanos != self.duration_nanos {
            diff.duration_nanos = Some(other.duration_nanos);
        }
        diff
    }

    /// Applies the difference `diff`, received at `now`.
    pub fn apply(&mut self, diff: &MuzzleFlashDiff, now: Time)
        ensures
            final(self)@ == apply_spec(old(self)@, diff@, now),
    {
        if diff.flash {
            self.last_flash = now;
        }
        if let Some(duration) = diff.duration_nanos {
            self.duration_nanos = duration;
        }
        if let Some(sprite) = &diff.sprite {
            self.sprite = sprite.clone();
        }
    }

    /// The neutral muzzle flash that differences start from: never flashed,
    /// empty sprite, zero duration.
    pub fn identity() -> (m: Self)
        ensures
            m@ == (MuzzleFlashView { last_flash: Time { millis: 0 }, sprite: Seq::<char>::empty(), duration_nanos: 0 }),
    {
        Self { last_flash: Time::new(0), sprite: String::new(), duration_nanos: 0 }
    }
}

/// Applying the difference from `a` to `b` to `a` gives `b`'s sprite and
/// duration; the flash time becomes the time of application exactly when `a`
/// and `b` had flashed at different times.
pub proof fn lemma_apply_diff(a: MuzzleFlashView, b: MuzzleFlashView, now: Time)
    ensures
        apply_spec(a, diff_spec(a, b), now).sprite == b.sprite,
        apply_spec(a, diff_spec(a, b), now).duration_nanos == b.duration_nanos,
        apply_spec(a, diff_spec(a, b), now).last_flash == (if a.last_flash != b.last_flash { now } else { a.last_flash }),
{
}

/// The difference from a flash to itself is empty, and applying it changes
/// nothing.
pub proof fn lemma_diff_self(a: MuzzleFlashView, now: Time)
    ensures
        diff_spec(a, a) == (MuzzleFlashDiffView { flash: false, sprite: None, duration_nanos: None }),
        apply_spec(a, diff_spec(a, a), now) == a,
{
}

} // verus!
