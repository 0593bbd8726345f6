use liquidators::game_state::{GameState, Mode, WaveSurvivalData};

#[test]
fn empty_game_state() {
    let s = GameState::empty();
    assert!(!s.game_started);
    assert!(s.chat.messages.is_empty());
    assert_eq!(s.living_players, 0);
    assert!(matches!(s.mode, Mode::Deathmatch));
}

#[test]
fn wave_survival_data_starts_at_wave_one() {
    let d = WaveSurvivalData::new();
    assert_eq!(d.wave, 1);
    assert!(!d.wave_active);
    assert!(d.ready.is_empty());
    assert_eq!(d.enemy_reserve, 10);
    assert_eq!(d.batch_spawn_rate, 5000);
    assert_eq!(d.batch_size, 1);
}

#[test]
fn deathmatch_starts_with_two_players() {
    let mut s = GameState::empty();
    assert!(!GameState::deathmatch_tick(&mut s, true, &vec![100]));
    assert!(!s.game_started);
    assert!(!GameState::deathmatch_tick(&mut s, true, &vec![100, 100]));
    assert!(s.game_started);
    // one of two left alive: everyone respawns
    assert!(GameState::deathmatch_tick(&mut s, true, &vec![100, 0]));
    assert!(s.game_started);
    assert!(!GameState::deathmatch_tick(&mut s, true, &vec![100, 0, 5]));
    // a player leaves: the match stops
    assert!(!GameState::deathmatch_tick(&mut s, true, &vec![0]));
    assert!(!s.game_started);
}

#[test]
fn deathmatch_only_on_host_and_in_deathmatch() {
    let mut s = GameState::empty();
    assert!(!GameState::deathmatch_tick(&mut s, false, &vec![0, 0]));
    assert!(!s.game_started);
    s.mode = Mode::Sandbox;
    assert!(!GameState::deathmatch_tick(&mut s, true, &vec![0, 0]));
    assert!(!s.game_started);
}

#[test]
fn wave_starts_when_everyone_is_ready() {
    let mut s = GameState::empty();
    s.mode = Mode::WaveSurvival(WaveSurvivalData::new());
    // player 3 is not ready
    if let Mode::WaveSurvival(d) = &mut s.mode {
        d.ready.insert(1);
    }
    assert_eq!(s.wave_survival_tick(true, &vec![1, 3]), 0);
    if let Mode::WaveSurvival(d) = &s.mode {
        assert_eq!(d.wave, 1);
        assert!(!d.wave_active);
    }
    if let Mode::WaveSurvival(d) = &mut s.mode {
        d.ready.insert(3);
        d.batch_size = 4;
    }
    assert_eq!(s.wave_survival_tick(true, &vec![1, 3]), 4);
    if let Mode::WaveSurvival(d) = &s.mode {
        assert_eq!(d.wave, 2);
        assert!(d.wave_active);
    }
    // a running wave keeps spawning batches and does not advance
    assert_eq!(s.wave_survival_tick(true, &vec![1, 3]), 4);
    if let Mode::WaveSurvival(d) = &s.mode {
        assert_eq!(d.wave, 2);
    }
    // clients other than the host do nothing
    assert_eq!(s.wave_survival_tick(false, &vec![1, 3]), 0);
}

#[test]
fn wave_survival_tick_ignores_other_modes() {
    let mut s = GameState::empty();
    assert_eq!(s.wave_survival_tick(true, &vec![]), 0);
    assert!(matches!(s.mode, Mode::Deathmatch));
}
