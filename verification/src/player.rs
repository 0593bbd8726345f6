//! Players: the state every client agrees on (health, money, owner, which
//! way the player faces, its weapon's magazine), how a player is spawned,
//! and when its head comes off. The physics bodies of its head and body are
//! made by the caller and held here by their handles: `B` is the type of a
//! body part, `R` of a rigid-body handle, `J` of a joint handle and `P` of a
//! point.
use vstd::prelude::*;
use crate::pistol::{Pistol, new_pistol};

verus! {

/// The direction a player (or enemy) faces.
#[derive(Clone, Copy, PartialEq, Eq, Structural, Debug)]
pub enum Facing {
    Right,
    Left,
}

/// The animation a player shows.
#[derive(Clone, Copy, PartialEq, Eq, Structural, Debug)]
pub enum PlayerAnimationState {
    Walking,
    Idle,
    GunRun,
}

impl Facing {
    /// Whether a sprite facing this way is drawn mirrored (the sprites face
    /// right).
    pub fn flip_x(&self) -> (flip: bool)
        ensures
            flip == (*self == Facing::Left),
    {
        match self {
            Facing::Right => false,
            Facing::Left => true,
        }
    }
}

/// A player.
pub struct Player<B, R, J, P> {
    pub id: u64,
    pub health: u32,
    pub head: B,
    pub body: B,
    pub sprite_path: String,
    pub owner: String,
    pub selected: bool,
    pub dragging: bool,
    pub drag_offset: Option<P>,
    pub weapon: Option<Pistol>,
    pub facing: Facing,
    /// The joint that holds the head on the body, until the head comes off.
    pub head_joint_handle: Option<J>,
    pub teleporter_destination: Option<R>,
    pub money: u32,
}

impl<B, R, J, P> Player<B, R, J, P> {
    /// A new player of the client `owner`, with the id `id`, whose head and
    /// body the caller has made and jointed with `head_joint`: full health
    /// (100), no money, facing right, holding a pistol with a full magazine,
    /// drawn from the idle sprite, not selected or dragged, and without a
    /// teleporter destination.
    pub fn spawn(id: u64, owner: String, head: B, body: B, head_joint: J) -> (p: Self)
        ensures
            p.id == id,
            p.health == 100,
            p.head == head,
            p.body == body,
            p.sprite_path@ == "assets/player/idle.png"@,
            p.owner == owner,
            !p.selected,
            !p.dragging,
            p.drag_offset is None,
            p.weapon matches Some(w) && w@ == new_pistol(),
            p.facing == Facing::Right,
            p.head_joint_handle == Some(head_joint),
            p.teleporter_destination is None,
            p.money == 0,
    {
        Player {
            id,
            health: 100,
            head,
            body,
            sprite_path: String::from_str("assets/player/idle.png"),
            owner,
            selected: false,
            dragging: false,
            drag_offset: None,
            weapon: Some(Pistol::new()),
            facing: Facing::Right,
            head_joint_handle: Some(head_joint),
            teleporter_destination: None,
            money: 0,
        }
    }

    /// Takes the head off a dead player: when the health is 0 and the head is
    /// still jointed, the joint is given back (for the caller to remove from
    /// the physics world) and forgotten. Otherwise nothing changes and the
    /// result is `None`.
    pub fn detach_head_if_dead(&mut self) -> (removed: Option<J>)
        ensures
            removed == (if old(self).health == 0 { old(self).head_joint_handle } else { None }),
            final(self).head_joint_handle == (if old(self).health == 0 { None } else { old(self).head_joint_handle }),
            final(self).id == old(self).id,
            final(self).health == old(self).health,
            final(self).head == old(self).head,
            final(self).body == old(self).body,
            final(self).sprite_path == old(self).sprite_path,
            final(self).owner == old(self).owner,
            final(self).selected == old(self).selected,
            final(self).dragging == old(self).dragging,
            final(self).drag_offset == old(self).drag_offset,
            final(self).weapon == old(self).weapon,
            final(self).facing == old(self).facing,
            final(self).teleporter_destination == old(self).teleporter_destination,
            final(self).money == old(self).money,
    {
        if self.head_joint_handle.is_none() {
            return None;
        }
        if self.health <= 0 {
            return self.head_joint_handle.take();
        }
        None
    }
}

} // verus!
