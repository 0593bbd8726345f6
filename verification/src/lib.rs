//! Game-logic library of the Liquidators sandbox shooter: the parts of the
//! game that decide things (chat log, network framing, ammunition, match
//! modes, the client's main loop, entity ownership, players and enemies,
//! editor selection and context menus, entity bookkeeping) with their
//! contracts.
use vstd::prelude::*;
use rand::seq::IndexedRandom;

pub mod chat;
pub mod networking;
pub mod time;
pub mod muzzle_flash;
pub mod pistol;
pub mod game_state;
pub mod editor_client;
pub mod entities;
pub mod ids;
pub mod player;
pub mod grenade;
pub mod console;
pub mod menu;
pub mod physics_square;
pub mod client;
pub mod ownership;
pub mod brick;
pub mod radio;
pub mod editor;
pub mod enemy;

verus! {

/// Identifies an entity within a hash map (it carries nothing yet).
pub struct EntityKey {}

/// Calls `rand::seq::IndexedRandom::choose` on `files` with the thread-local
/// generator `rand::rng()` and clones the pick. Trusted: `None` exactly when
/// `files` is empty (the crate checks `is_empty`), and otherwise one of the
/// files. Which one is left open: it is random.
#[verifier::external_body]
fn choose_file(files: &Vec<String>) -> (pick: Option<String>)
    ensures
        pick is None <==> files@.len() == 0,
        pick matches Some(f) ==> exists|i: int| 0 <= i < files@.len() && files@[i]@ == f@,
{
    files.choose(&mut rand::rng()).cloned()
}

/// Picks one of `files` at random (the files of a directory, listed by the
/// caller): `None` when there are none.
pub fn random_file(files: &Vec<String>) -> (pick: Option<String>)
    ensures
        pick is None <==> files@.len() == 0,
        pick matches Some(f) ==> exists|i: int| 0 <= i < files@.len() && files@[i]@ == f@,
{
    choose_file(files)
}

/// The seeds of the two noise generators that shake the screen: the given
/// ones, or 69420 for x and 42069 for y.
pub fn screen_shake_seeds(x_seed: Option<u32>, y_seed: Option<u32>) -> (seeds: (u32, u32))
    ensures
        seeds.0 == (match x_seed {
            Some(s) => s,
            None => 69420u32,
        }),
        seeds.1 == (match y_seed {
            Some(s) => s,
            None => 42069u32,
        }),
{
    let x_seed = match x_seed {
        Some(seed) => seed,
        None => 69420,
    };
    let y_seed = match y_seed {
        Some(seed) => seed,
        None => 42069,
    };
    (x_seed, y_seed)
}

} // verus!
