//! The game client's decisions, taken once per pass of its main loop and
//! once per tick: whether to tick, whether to send a sync to the server,
//! whether this client hosts the game, what it takes over when it joins an
//! empty game, and where the main menu leads. The loop itself (the window,
//! the clock, the connection) is run by the caller.
use vstd::prelude::*;
use crate::ownership::claim_all;

verus! {

/// Ticks are at least this many milliseconds apart (at most 120 per second).
pub const TICK_INTERVAL_MS: u128 = 8;

/// Syncs are more than a 120th of a second apart.
pub const SYNCS_PER_SECOND: u128 = 120;

/// What one pass of the main loop does.
#[derive(Clone, Copy, PartialEq, Eq, Structural, Debug)]
pub enum LoopStep {
    /// Quitting was requested: disconnect and leave the loop.
    Quit,
    /// Run on: `tick` says whether to tick (and draw) now, `sync` whether the
    /// sync interval has passed (the game is then sent to the server if
    /// connected, and the sync clock restarts).
    Run { tick: bool, sync: bool },
}

/// Decides one pass of the main loop from the time since the last tick (in
/// milliseconds) and since the last sync (in nanoseconds); holding the
/// pause key suspends syncing.
pub fn run_step(quit_requested: bool, ms_since_tick: u128, nanos_since_sync: u128, pause_sync_down: bool) -> (step: LoopStep)
    ensures
        step == (if quit_requested {
            LoopStep::Quit
        } else {
            LoopStep::Run {
                tick: ms_since_tick >= TICK_INTERVAL_MS,
                sync: !pause_sync_down && nanos_since_sync * SYNCS_PER_SECOND > 1_000_000_000,
            }
        }),
{
    if quit_requested {
        return LoopStep::Quit;
    }
    let tick = ms_since_tick >= TICK_INTERVAL_MS;
    // more than 10^9 / 120 nanoseconds
    let sync = !pause_sync_down && nanos_since_sync > 1_000_000_000 / SYNCS_PER_SECOND;
    LoopStep::Run { tick, sync }
}

/// Where the main menu leads this tick.
#[derive(Clone, Copy, PartialEq, Eq, Structural, Debug)]
pub enum MenuAction {
    /// Start a server on this machine and join it.
    StartLocalGame,
    /// Join the public server.
    JoinGame,
    /// Stay in the menu.
    Stay,
}

/// The menu's choice: a new game goes before joining one.
pub fn menu_action(new_game: bool, connect: bool) -> (action: MenuAction)
    ensures
        action == (if new_game {
            MenuAction::StartLocalGame
        } else if connect {
            MenuAction::JoinGame
        } else {
            MenuAction::Stay
        }),
{
    if new_game {
        MenuAction::StartLocalGame
    } else if connect {
        MenuAction::JoinGame
    } else {
        MenuAction::Stay
    }
}

/// Whether this client hosts after a tick: it becomes host when it is the
/// only player connected, and stays host once it is.
pub fn host_after_tick(is_host: bool, players_connected: usize) -> (host: bool)
    ensures
        host == (is_host || players_connected == 1),
{
    if players_connected == 1 {
        true
    } else {
        is_host
    }
}

/// Makes `me` the owner of every entity whose owner is a plain id.
fn claim_every(owners: &mut Vec<String>, me: &String)
    ensures
        final(owners)@.len() == old(owners)@.len(),
        forall|i: int| 0 <= i < final(owners)@.len() ==> #[trigger] final(owners)@[i] == *me,
{
    let mut i: usize = 0;
    while i < owners.len()
        invariant
            i <= owners@.len(),
            owners@.len() == old(owners)@.len(),
            forall|k: int| 0 <= k < i ==> #[trigger] owners@[k] == *me,
        decreases owners@.len() - i,
    {
        owners.set(i, me.clone());
        i = i + 1;
    }
}

/// What a client does to the level it receives when it connects: when no
/// player is in it yet, the client `me` takes over every structure, brick
/// and shotgun, and it hosts the game (the result is `true`); otherwise
/// nothing changes and it does not host.
pub fn claim_on_connect(
    players_connected: usize,
    structure_owners: &mut Vec<Option<String>>,
    brick_owners: &mut Vec<Option<String>>,
    shotgun_owners: &mut Vec<String>,
    me: &String,
) -> (is_host: bool)
    ensures
        is_host == (players_connected == 0),
        final(structure_owners)@.len() == old(structure_owners)@.len(),
        final(brick_owners)@.len() == old(brick_owners)@.len(),
        final(shotgun_owners)@.len() == old(shotgun_owners)@.len(),
        is_host ==> forall|i: int| 0 <= i < final(structure_owners)@.len()
            ==> #[trigger] final(structure_owners)@[i] == Some(*me),
        is_host ==> forall|i: int| 0 <= i < final(brick_owners)@.len()
            ==> #[trigger] final(brick_owners)@[i] == Some(*me),
        is_host ==> forall|i: int| 0 <= i < final(shotgun_owners)@.len()
            ==> #[trigger] final(shotgun_owners)@[i] == *me,
        !is_host ==> final(structure_owners)@ == old(structure_owners)@,
        !is_host ==> final(brick_owners)@ == old(brick_owners)@,
        !is_host ==> final(shotgun_owners)@ == old(shotgun_owners)@,
{
    // if we are the first player to join, we take ownership of everything
    if players_connected == 0 {
        claim_all(structure_owners, me);
        claim_all(brick_owners, me);
        claim_every(shotgun_owners, me);
    }
    players_connected == 0
}

} // verus!
