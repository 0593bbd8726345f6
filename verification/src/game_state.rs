//! Match modes and the rules that run a match: deathmatch rounds and
//! wave-survival waves.
use vstd::prelude::*;
use std::collections::HashSet;
use crate::chat::Chat;
use crate::time::Time;

verus! {

broadcast use vstd::std_specs::hash::group_hash_axioms;

/// The state of a wave-survival match. Players are identified by their index
/// in the level's player arena.
pub struct WaveSurvivalData {
    pub wave: u32,
    pub last_wave_end: Time,
    /// Players that are ready for the next wave.
    pub ready: HashSet<u64>,
    pub wave_active: bool,
    /// The total number of remaining enemies that will spawn this wave.
    pub enemy_reserve: u32,
    /// The number of ms to wait between wave batches.
    pub batch_spawn_rate: u32,
    /// The number of enemies that spawn in each batch.
    pub batch_size: u32,
    pub last_batch_spawn: Time,
}

impl WaveSurvivalData {
    /// Wave-survival data starting at wave 1, no wave running, nobody ready.
    pub fn new() -> (d: Self)
        ensures
            d.wave == 1,
            d.last_wave_end == (Time { millis: 0 }),
            d.ready@ == Set::<u64>::empty(),
            !d.wave_active,
            d.enemy_reserve == 10,
            d.batch_spawn_rate == 5000,
            d.batch_size == 1,
            d.last_batch_spawn == (Time { millis: 0 }),
    {
        Self {
            wave: 1,
            last_wave_end: Time::new(0),
            ready: HashSet::new(),
            wave_active: false,
            enemy_reserve: 10,
            batch_spawn_rate: 5000,
            batch_size: 1,
            last_batch_spawn: Time::new(0),
        }
    }
}

/// The state of a deathmatch (it holds nothing of its own).
pub struct DeathmatchData {}

/// The kind of match being played.
pub enum Mode {
    Deathmatch,
    Sandbox,
    WaveSurvival(WaveSurvivalData),
}

/// The match state shared by all clients, apart from the level itself.
pub struct GameState {
    pub game_started: bool,
    pub chat: Chat,
    pub living_players: u32,
    pub mode: Mode,
}

/// Every player in `players` is in `ready`.
pub open spec fn all_ready(ready: Set<u64>, players: Seq<u64>) -> bool {
    forall|i: int| 0 <= i < players.len() ==> ready.contains(#[trigger] players[i])
}

/// How many of `healths` are above zero.
pub open spec fn count_living(healths: Seq<u32>) -> nat
    decreases healths.len(),
{
    if healths.len() == 0 {
        0
    } else {
        count_living(healths.drop_last()) + if healths.last() > 0 { 1nat } else { 0nat }
    }
}

/// Counting a prefix never gives more than counting the whole.
proof fn lemma_count_living_prefix(healths: Seq<u32>, i: int)
    requires
        0 <= i <= healths.len(),
    ensures
        count_living(healths.subrange(0, i)) <= count_living(healths),
    decreases healths.len(),
{
    if i < healths.len() {
        lemma_count_living_prefix(healths.drop_last(), i);
        assert(healths.drop_last().subrange(0, i) =~= healths.subrange(0, i));
    } else {
        assert(healths.subrange(0, i) =~= healths);
    }
}

/// The players counted as living are exactly those with health above zero.
pub proof fn lemma_count_living_positive(healths: Seq<u32>)
    ensures
        count_living(healths) == healths.filter(|h: u32| h > 0).len(),
    decreases healths.len(),
{
    reveal(Seq::filter);
    if healths.len() > 0 {
        lemma_count_living_positive(healths.drop_last());
    }
}

/// Adding a player adds one living player exactly when its health is above
/// zero; with at most one health above zero, fewer than two are living.
pub proof fn lemma_count_living_push(healths: Seq<u32>, h: u32)
    ensures
        count_living(healths.push(h)) == count_living(healths) + (if h > 0 { 1int } else { 0int }),
        count_living(seq![h]) == (if h > 0 { 1int } else { 0int }),
{
    assert(healths.push(h).drop_last() =~= healths);
    assert(seq![h].drop_last() =~= Seq::<u32>::empty());
    assert(seq![h].last() == h);
    assert(count_living(Seq::<u32>::empty()) == 0);
}

/// A wave can start exactly when every player is in the ready set.
pub proof fn lemma_all_ready_every_player(ready: Set<u64>, players: Seq<u64>)
    ensures
        all_ready(ready, players) <==> forall|i: int| 0 <= i < players.len() ==> #[trigger] ready.contains(players[i]),
        (exists|i: int| 0 <= i < players.len() && !ready.contains(players[i])) ==> !all_ready(ready, players),
{
}

impl GameState {
    /// A match that has not started: empty chat, no living players,
    /// deathmatch mode.
    pub fn empty() -> (s: Self)
        ensures
            !s.game_started,
            s.chat.messages@.len() == 0,
            s.living_players == 0,
            s.mode is Deathmatch,
    {
        Self { game_started: false, chat: Chat::new(), living_players: 0, mode: Mode::Deathmatch }
    }

    /// One host-side deathmatch step, given the health of every player in the
    /// level. The match runs while there are at least two players; when fewer
    /// than two of them are alive, every player is to be respawned where they
    /// stand (the result is `true`). Nothing happens on a client that is not
    /// the host, or in another mode.
    pub fn deathmatch_tick(state: &mut GameState, is_host: bool, player_healths: &Vec<u32>) -> (respawn_all: bool)
        requires
            (is_host && old(state).mode is Deathmatch && player_healths@.len() >= 2)
                ==> count_living(player_healths@) <= u32::MAX,
        ensures
            final(state).chat == old(state).chat,
            final(state).living_players == old(state).living_players,
            final(state).mode == old(state).mode,
            (!is_host || !(old(state).mode is Deathmatch)) ==> final(state).game_started == old(state).game_started && !respawn_all,
            (is_host && old(state).mode is Deathmatch) ==> final(state).game_started == (player_healths@.len() >= 2),
            respawn_all == (is_host && old(state).mode is Deathmatch && player_healths@.len() >= 2 && count_living(player_healths@) < 2),
            respawn_all == (is_host && old(state).mode is Deathmatch && player_healths@.len() >= 2
                && player_healths@.filter(|h: u32| h > 0).len() < 2),
    {
        proof {
            lemma_count_living_positive(player_healths@);
        }
        if !is_host {
            return false;
        }
        if let Mode::Deathmatch = state.mode {
            // start the game if more than one player is connected
            if player_healths.len() > 1 {
                state.game_started = true;
            }
            if player_healths.len() < 2 {
                state.game_started = false;
            }
            if !state.game_started {
                return false;
            }
            let mut living_player_count: u32 = 0;
            let mut i: usize = 0;
            while i < player_healths.len()
                invariant
                    i <= player_healths@.len(),
                    living_player_count == count_living(player_healths@.subrange(0, i as int)),
                    count_living(player_healths@) <= u32::MAX,
                decreases player_healths@.len() - i,
            {
                proof {
                    assert(player_healths@.subrange(0, i + 1).drop_last() =~= player_healths@.subrange(0, i as int));
                    lemma_count_living_prefix(player_healths@, i + 1);
                }
                if player_healths[i] > 0 {
                    living_player_count = living_player_count + 1;
                }
                i = i + 1;
            }
            proof {
                assert(player_healths@.subrange(0, i as int) =~= player_healths@);
            }
            living_player_count < 2
        } else {
            false
        }
    }

    /// One host-side wave-survival step, given the players in the level. When
    /// no wave is running and every player is ready, the next wave starts.
    /// While a wave runs, the result is the number of enemies to spawn now
    /// (one batch, owned by this client, at `wave_spawn_xs` of it); otherwise
    /// it is 0. Nothing happens on a client that is not
    /// the host, or in another mode.
    pub fn wave_survival_tick(&mut self, is_host: bool, players: &Vec<u64>) -> (spawn: u32)
        requires
            is_host ==> (old(self).mode matches Mode::WaveSurvival(d) ==> (!d.wave_active && all_ready(d.ready@, players@)
                ==> d.wave < u32::MAX)),
        ensures
            final(self).game_started == old(self).game_started,
            final(self).chat == old(self).chat,
            final(self).living_players == old(self).living_players,
            !is_host ==> final(self).mode == old(self).mode && spawn == 0,
            !(old(self).mode is WaveSurvival) ==> final(self).mode == old(self).mode && spawn == 0,
            is_host ==> match (old(self).mode, final(self).mode) {
                (Mode::WaveSurvival(o), Mode::WaveSurvival(n)) => {
                    let starts = !o.wave_active && all_ready(o.ready@, players@);
                    &&& n.wave == (if starts { o.wave + 1 } else { o.wave as int })
                    &&& n.wave_active == (o.wave_active || starts)
                    &&& n.ready@ == o.ready@
                    &&& n.last_wave_end == o.last_wave_end
                    &&& n.enemy_reserve == o.enemy_reserve
                    &&& n.batch_spawn_rate == o.batch_spawn_rate
                    &&& n.batch_size == o.batch_size
                    &&& n.last_batch_spawn == o.last_batch_spawn
                    &&& spawn == (if n.wave_active { o.batch_size } else { 0 })
                },
                (Mode::WaveSurvival(_), _) => false,
                _ => true,
            },
            is_host ==> match (old(self).mode, final(self).mode) {
                (Mode::WaveSurvival(o), Mode::WaveSurvival(n)) => {
                    let every_ready = forall|i: int| 0 <= i < players@.len() ==> #[trigger] o.ready@.contains(players@[i]);
                    &&& (!o.wave_active && !every_ready) ==> (n.wave == o.wave && !n.wave_active && spawn == 0)
                    &&& (!o.wave_active && every_ready) ==> (n.wave == o.wave + 1 && n.wave_active && spawn == o.batch_size)
                    &&& o.wave_active ==> (n.wave == o.wave && n.wave_active && spawn == o.batch_size)
                },
                _ => true,
            },
    {
        if !is_host {
            return 0;
        }
        if let Mode::WaveSurvival(data) = &mut self.mode {
            // start next wave logic
            if data.wave_active == false {
                let mut ready = true;
                let mut i: usize = 0;
                while i < players.len()
                    invariant
                        i <= players@.len(),
                        ready == all_ready(data.ready@, players@.subrange(0, i as int)),
                    decreases players@.len() - i,
                {
                    proof {
                        let s = players@.subrange(0, i + 1);
                        assert(s.subrange(0, i as int) =~= players@.subrange(0, i as int));
                        assert(s[i as int] == players@[i as int]);
                    }
                    if !data.ready.contains(&players[i]) {
                        ready = false;
                    }
                    i = i + 1;
                }
                proof {
                    assert(players@.subrange(0, i as int) =~= players@);
                }
                if ready {
                    data.wave = data.wave + 1;
                    data.wave_active = true;
                }
            }
            if data.wave_active == false {
                return 0;
            }
            data.batch_size
        } else {
            0
        }
    }
}

/// Where the enemies of a wave batch of `count` spawn, in world units along
/// x (all at height 0): the first at -500, each next one 60 further right.
pub fn wave_spawn_xs(count: u32) -> (xs: Vec<i64>)
    ensures
        xs@.len() == count,
        forall|i: int| 0 <= i < count ==> #[trigger] xs@[i] == -500 + 60 * i,
{
    let mut xs: Vec<i64> = Vec::new();
    let mut i: u32 = 0;
    while i < count
        invariant
            i <= count,
            xs@.len() == i,
            forall|k: int| 0 <= k < i ==> #[trigger] xs@[k] == -500 + 60 * k,
        decreases count - i,
    {
        xs.push(-500 + 60 * (i as i64));
        i = i + 1;
    }
    xs
}

} // verus!
