use liquidators::pistol::{FireOutcome, Pistol, ReloadOutcome};
use liquidators::time::Time;

fn fire_n(p: &mut Pistol, n: u32, now: Time) {
    for _ in 0..n {
        assert_eq!(p.fire(now), FireOutcome::Fired);
    }
}

#[test]
fn new_pistol_is_loaded() {
    let p = Pistol::new();
    assert_eq!(p.rounds(), 12);
    assert_eq!(p.capacity(), 12);
    assert_eq!(p.reserve_capacity(), 24);
    assert_eq!(p.reload_duration(), 2200);
    assert_eq!(p.last_reload(), Time::new(0));
}

#[test]
fn fire_spends_rounds_then_reloads() {
    let mut p = Pistol::new();
    let now = Time::new(1_000_000);
    for i in 0..12 {
        assert_eq!(p.fire(now), FireOutcome::Fired);
        assert_eq!(p.rounds(), 11 - i);
    }
    // empty magazine: pulling the trigger reloads instead
    assert_eq!(p.fire(now), FireOutcome::Reload(ReloadOutcome::Reloaded(12)));
    assert_eq!(p.rounds(), 12);
    assert_eq!(p.reserve_capacity(), 12);
    assert_eq!(p.last_reload(), now);
    // while reloading the gun only clicks
    assert_eq!(p.fire(Time::new(1_002_199)), FireOutcome::DryFire);
    assert_eq!(p.rounds(), 12);
    assert_eq!(p.fire(Time::new(1_002_200)), FireOutcome::Fired);
    assert_eq!(p.rounds(), 11);
}

#[test]
fn reload_outcomes() {
    let mut p = Pistol::new();
    let now = Time::new(10_000);
    assert_eq!(p.reload(now), ReloadOutcome::MagazineFull);
    fire_n(&mut p, 7, now);
    assert_eq!(p.reload(now), ReloadOutcome::Reloaded(7));
    assert_eq!((p.rounds(), p.reserve_capacity()), (12, 17));
    assert_eq!(p.reload(Time::new(10_100)), ReloadOutcome::StillReloading);
    assert!(p.is_reloading(Time::new(10_100)));
    assert!(!p.is_reloading(Time::new(12_200)));
    fire_n(&mut p, 12, Time::new(20_000));
    assert_eq!(p.reload(Time::new(20_000)), ReloadOutcome::Reloaded(12));
    assert_eq!((p.rounds(), p.reserve_capacity()), (12, 5));
    fire_n(&mut p, 2, Time::new(30_000));
    assert_eq!(p.reload(Time::new(30_000)), ReloadOutcome::Reloaded(2));
    assert_eq!((p.rounds(), p.reserve_capacity()), (12, 3));
    fire_n(&mut p, 12, Time::new(40_000));
    // fewer rounds in reserve than the magazine lacks: all of them move
    assert_eq!(p.reload(Time::new(40_000)), ReloadOutcome::Reloaded(3));
    assert_eq!((p.rounds(), p.reserve_capacity()), (3, 0));
    fire_n(&mut p, 2, Time::new(50_000));
    assert_eq!(p.reload(Time::new(50_000)), ReloadOutcome::NoReserve);
    assert_eq!(p.rounds(), 1);
}

#[test]
fn total_rounds_are_conserved_by_reload() {
    let mut p = Pistol::new();
    fire_n(&mut p, 8, Time::new(50_000));
    assert_eq!(p.rounds(), 4);
    let before = p.rounds() + p.reserve_capacity();
    p.reload(Time::new(50_000));
    assert_eq!(p.rounds() + p.reserve_capacity(), before);
    assert_eq!(p.rounds(), 12);
}
