//! The pistol's magazine: rounds loaded, rounds in reserve, and reloading.
use vstd::prelude::*;
use crate::time::{Time, elapsed_ms};

verus! {

/// The ammunition state of a pistol, as a value: the rounds in the
/// magazine, the size of the magazine, the rounds left in reserve, how long a
/// reload takes (in milliseconds) and when the last reload started.
pub struct PistolState {
    pub last_reload: Time,
    pub rounds: u32,
    pub capacity: u32,
    pub reserve_capacity: u32,
    pub reload_duration: u32,
}

/// A pistol's magazine. Its magazine never holds more rounds than fit.
pub struct Pistol {
    last_reload: Time,
    rounds: u32,
    capacity: u32,
    reserve_capacity: u32,
    reload_duration: u32,
}

impl View for Pistol {
    type V = PistolState;

    closed spec fn view(&self) -> PistolState {
        PistolState {
            last_reload: self.last_reload,
            rounds: self.rounds,
            capacity: self.capacity,
            reserve_capacity: self.reserve_capacity,
            reload_duration: self.reload_duration,
        }
    }
}

impl Pistol {
    #[verifier::type_invariant]
    spec fn inv(self) -> bool {
        self.rounds <= self.capacity
    }
}

/// What a reload did.
#[derive(Clone, Copy, PartialEq, Eq, Structural, Debug)]
pub enum ReloadOutcome {
    /// The previous reload has not finished: nothing changed.
    StillReloading,
    /// The magazine is already full: nothing changed.
    MagazineFull,
    /// The reserve is empty: nothing changed.
    NoReserve,
    /// This many rounds moved from the reserve into the magazine.
    Reloaded(u32),
}

/// What pulling the trigger did.
#[derive(Clone, Copy, PartialEq, Eq, Structural, Debug)]
pub enum FireOutcome {
    /// Still reloading: the gun clicks (a dry-fire sound) and nothing changed.
    DryFire,
    /// The magazine was empty: a reload was attempted instead of a shot.
    Reload(ReloadOutcome),
    /// One round was fired.
    Fired,
}

impl PistolState {
    /// The magazine never holds more than it can.
    pub open spec fn wf(&self) -> bool {
        self.rounds <= self.capacity
    }

    /// Whether a reload started at `last_reload` is still running at `now`.
    pub open spec fn reloading_at(&self, now: Time) -> bool {
        elapsed_ms(self.last_reload, now) < self.reload_duration
    }

    /// Total rounds owned: in the magazine and in reserve.
    pub open spec fn total_rounds(&self) -> int {
        self.rounds + self.reserve_capacity
    }
}

/// A new pistol: a full magazine of 12, 24 rounds in reserve, a reload that
/// takes 2200 ms, and no reload running.
pub open spec fn new_pistol() -> PistolState {
    PistolState { last_reload: Time { millis: 0 }, rounds: 12, capacity: 12, reserve_capacity: 24, reload_duration: 2200 }
}

/// The rounds a reload moves: what the magazine lacks, but no more than the
/// reserve holds.
pub open spec fn rounds_to_move(p: PistolState) -> int {
    let needed = p.capacity - p.rounds;
    if needed <= p.reserve_capacity { needed } else { p.reserve_capacity as int }
}

/// A reload at `now`: the resulting pistol and outcome.
pub open spec fn reload_spec(p: PistolState, now: Time) -> (PistolState, ReloadOutcome) {
    if p.reloading_at(now) {
        (p, ReloadOutcome::StillReloading)
    } else if p.rounds == p.capacity {
        (p, ReloadOutcome::MagazineFull)
    } else if rounds_to_move(p) == 0 {
        (p, ReloadOutcome::NoReserve)
    } else {
        (
            PistolState {
                reserve_capacity: (p.reserve_capacity - rounds_to_move(p)) as u32,
                rounds: (p.rounds + rounds_to_move(p)) as u32,
                last_reload: now,
                ..p
            },
            ReloadOutcome::Reloaded(rounds_to_move(p) as u32),
        )
    }
}

/// A trigger pull at `now`: the resulting pistol and outcome.
pub open spec fn fire_spec(p: PistolState, now: Time) -> (PistolState, FireOutcome) {
    if p.reloading_at(now) {
        (p, FireOutcome::DryFire)
    } else if p.rounds == 0 {
        (reload_spec(p, now).0, FireOutcome::Reload(reload_spec(p, now).1))
    } else {
        (PistolState { rounds: (p.rounds - 1) as u32, ..p }, FireOutcome::Fired)
    }
}

impl Pistol {
    /// A pistol with a full magazine of 12, 24 rounds in reserve and a reload
    /// that takes 2200 ms; no reload is running.
    pub fn new() -> (p: Pistol)
        ensures
            p@ == new_pistol(),
    {
        Pistol {
            last_reload: Time::new(0),
            reload_duration: 2200,
            rounds: 12,
            capacity: 12,
            reserve_capacity: 24,
        }
    }

    /// The rounds in the magazine.
    pub fn rounds(&self) -> (r: u32)
        ensures
            r == self@.rounds,
    {
        self.rounds
    }

    /// How many rounds the magazine holds when full.
    pub fn capacity(&self) -> (c: u32)
        ensures
            c == self@.capacity,
    {
        self.capacity
    }

    /// The rounds left in reserve.
    pub fn reserve_capacity(&self) -> (r: u32)
        ensures
            r == self@.reserve_capacity,
    {
        self.reserve_capacity
    }

    /// How long a reload takes, in milliseconds.
    pub fn reload_duration(&self) -> (d: u32)
        ensures
            d == self@.reload_duration,
    {
        self.reload_duration
    }

    /// When the last reload started.
    pub fn last_reload(&self) -> (t: Time)
        ensures
            t == self@.last_reload,
    {
        self.last_reload
    }

    /// Whether a reload is running at `now`.
    pub fn is_reloading(&self, now: Time) -> (r: bool)
        ensures
            r == self@.reloading_at(now),
            r == (now.millis - self@.last_reload.millis < self@.reload_duration),
    {
        self.last_reload.elapsed_less_than(now, self.reload_duration as i64)
    }

    /// Reloads at `now`, unless a reload is running, the magazine is full or
    /// the reserve is empty: moves as many rounds from the reserve into the
    /// magazine as fit, and starts the reload timer.
    pub fn reload(&mut self, now: Time) -> (outcome: ReloadOutcome)
        ensures
            (final(self)@, outcome) == reload_spec(old(self)@, now),
            old(self)@.wf(),
            final(self)@.wf(),
    {
        proof {
            use_type_invariant(&*self);
        }
        // dont reload while already reloading
        if self.is_reloading(now) {
            return ReloadOutcome::StillReloading;
        }
        // dont reload if we already have a full mag
        if self.rounds == self.capacity {
            return ReloadOutcome::MagazineFull;
        }
        let rounds_needed_to_fill = self.capacity - self.rounds;
        // dont use more rounds than are available in reserve
        let actual_rounds_available = if rounds_needed_to_fill <= self.reserve_capacity {
            rounds_needed_to_fill
        } else {
            self.reserve_capacity
        };
        if actual_rounds_available == 0 {
            return ReloadOutcome::NoReserve;
        }
        self.reserve_capacity = self.reserve_capacity - actual_rounds_available;
        self.rounds = self.rounds + actual_rounds_available;
        self.last_reload = now;
        ReloadOutcome::Reloaded(actual_rounds_available)
    }

    /// Pulls the trigger at `now`: clicks while reloading, reloads when the
    /// magazine is empty, and otherwise fires one round.
    pub fn fire(&mut self, now: Time) -> (outcome: FireOutcome)
        ensures
            (final(self)@, outcome) == fire_spec(old(self)@, now),
            old(self)@.wf(),
            final(self)@.wf(),
    {
        proof {
            use_type_invariant(&*self);
        }
        // dont shoot while reloading
        if self.is_reloading(now) {
            return FireOutcome::DryFire;
        }
        // automatically reload if zero bullets
        if self.rounds == 0 {
            let r = self.reload(now);
            return FireOutcome::Reload(r);
        }
        self.rounds = self.rounds - 1;
        FireOutcome::Fired
    }
}

/// A reload never creates or loses rounds, keeps the magazine within its
/// capacity, and fills it as far as the reserve allows.
pub proof fn lemma_reload_conserves(p: PistolState, now: Time)
    requires
        p.wf(),
    ensures
        reload_spec(p, now).0.total_rounds() == p.total_rounds(),
        reload_spec(p, now).0.wf(),
        reload_spec(p, now).0.capacity == p.capacity,
        reload_spec(p, now).1 matches ReloadOutcome::Reloaded(n) ==> reload_spec(p, now).0.rounds == (
        if p.total_rounds() <= p.capacity { p.total_rounds() } else { p.capacity as int }),
{
}

/// Firing spends exactly one round when it fires, and otherwise never changes
/// the total number of rounds.
pub proof fn lemma_fire_spends_one(p: PistolState, now: Time)
    requires
        p.wf(),
    ensures
        fire_spec(p, now).1 == FireOutcome::Fired ==> fire_spec(p, now).0.total_rounds() == p.total_rounds() - 1,
        fire_spec(p, now).1 != FireOutcome::Fired ==> fire_spec(p, now).0.total_rounds() == p.total_rounds(),
        fire_spec(p, now).0.wf(),
{
    lemma_reload_conserves(p, now);
}

/// Right after a reload has moved rounds, a second reload at the same moment
/// does nothing: the reload timer is running.
pub proof fn lemma_reload_twice(p: PistolState, now: Time)
    requires
        p.wf(),
        reload_spec(p, now).1 is Reloaded,
        p.reload_duration > 0,
    ensures
        reload_spec(reload_spec(p, now).0, now) == (reload_spec(p, now).0, ReloadOutcome::StillReloading),
{
}

/// A reload that moves no rounds changes nothing, its timer included; one
/// that moves rounds moves what the magazine lacks or, if fewer, all of the
/// reserve (at least one round), and starts the timer at `now`. A reload is
/// refused exactly while the last one runs (fewer milliseconds have passed
/// since it started than a reload takes), when the magazine is full, or
/// when the reserve is empty.
pub proof fn lemma_reload_moves_or_keeps(p: PistolState, now: Time)
    requires
        p.wf(),
    ensures
        !(reload_spec(p, now).1 is Reloaded) ==> reload_spec(p, now).0 == p,
        (reload_spec(p, now).1 is Reloaded) <==> (
            !(now.millis - p.last_reload.millis < p.reload_duration)
            && p.rounds < p.capacity
            && p.reserve_capacity > 0),
        reload_spec(p, now).1 matches ReloadOutcome::Reloaded(n) ==> {
            let q = reload_spec(p, now).0;
            &&& n > 0
            &&& n == (if p.capacity - p.rounds <= p.reserve_capacity { p.capacity - p.rounds } else { p.reserve_capacity as int })
            &&& q.rounds == p.rounds + n
            &&& q.reserve_capacity == p.reserve_capacity - n
            &&& q.last_reload == now
            &&& q.capacity == p.capacity
            &&& q.reload_duration == p.reload_duration
        },
        reload_spec(p, now).1 == ReloadOutcome::StillReloading <==> now.millis - p.last_reload.millis < p.reload_duration,
        reload_spec(p, now).1 == ReloadOutcome::MagazineFull <==> (
            !(now.millis - p.last_reload.millis < p.reload_duration) && p.rounds == p.capacity),
        reload_spec(p, now).1 == ReloadOutcome::NoReserve <==> (
            !(now.millis - p.last_reload.millis < p.reload_duration) && p.rounds < p.capacity
            && p.reserve_capacity == 0),
{
}

/// A trigger pull clicks, changing nothing, exactly while a reload runs;
/// otherwise an empty magazine reloads instead of firing, and a loaded one
/// loses one round and nothing else.
pub proof fn lemma_fire_outcomes(p: PistolState, now: Time)
    requires
        p.wf(),
    ensures
        (fire_spec(p, now).1 == FireOutcome::DryFire) <==> now.millis - p.last_reload.millis < p.reload_duration,
        fire_spec(p, now).1 == FireOutcome::DryFire ==> fire_spec(p, now).0 == p,
        fire_spec(p, now).1 == FireOutcome::Fired <==> (
            !(now.millis - p.last_reload.millis < p.reload_duration) && p.rounds > 0),
        fire_spec(p, now).1 == FireOutcome::Fired ==> fire_spec(p, now).0 == (PistolState { rounds: (p.rounds - 1) as u32, ..p }),
        fire_spec(p, now).1 matches FireOutcome::Reload(r) ==> p.rounds == 0 && (fire_spec(p, now).0, r) == reload_spec(p, now),
{
}

} // verus!
