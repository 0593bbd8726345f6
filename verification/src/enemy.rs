//! Enemies: their state, what a bullet hit does to their health, and when
//! their head comes off. The physics bodies of head and body are made by the
//! caller and held here: `B` is the type of a body part, `J` of a joint
//! handle and `T` of the index of a targeted player. How hard a bullet hits
//! (it falls off with distance) is computed by the caller.
use vstd::prelude::*;
use crate::player::Facing;
use crate::time::Time;

verus! {

/// Which part of an enemy a bullet hit.
#[derive(Clone, Copy, PartialEq, Eq, Structural, Debug)]
pub enum HitPart {
    Body,
    Head,
    /// Another collider: the enemy is not hurt.
    Elsewhere,
}

/// An enemy.
pub struct Enemy<B, J, T> {
    pub head: B,
    pub body: B,
    pub health: i32,
    pub facing: Facing,
    pub owner: String,
    pub head_body_joint: Option<J>,
    pub last_jump: Time,
    pub player_target: Option<T>,
}

impl<B, J, T> Enemy<B, J, T> {
    /// A new enemy of the client `owner`, whose head and body the caller has
    /// made and jointed with `head_body_joint`: full health (100), facing
    /// right, never jumped, targeting nobody.
    pub fn new(owner: String, head: B, body: B, head_body_joint: J) -> (e: Self)
        ensures
            e.head == head,
            e.body == body,
            e.health == 100,
            e.facing == Facing::Right,
            e.owner == owner,
            e.head_body_joint == Some(head_body_joint),
            e.last_jump == (Time { millis: 0 }),
            e.player_target is None,
    {
        Enemy {
            head,
            body,
            health: 100,
            facing: Facing::Right,
            owner,
            head_body_joint: Some(head_body_joint),
            last_jump: Time::new(0),
            player_target: None,
        }
    }

    /// Whether the enemy acts this tick (stands up, picks and follows a
    /// target): while its health is above 0.
    pub fn is_alive(&self) -> (alive: bool)
        ensures
            alive == (self.health > 0),
    {
        self.health > 0
    }

    /// A bullet hit the enemy's `part`: a living enemy loses `body_damage`
    /// for a body shot and `head_damage` for a head shot; a dead enemy, or a
    /// hit elsewhere, changes nothing. The damages are those of the shot
    /// (rounded, never negative).
    pub fn handle_bullet_impact(&mut self, part: HitPart, body_damage: i32, head_damage: i32)
        requires
            body_damage >= 0,
            head_damage >= 0,
        ensures
            final(self).health == (if old(self).health <= 0 {
                old(self).health as int
            } else {
                match part {
                    HitPart::Body => old(self).health - body_damage,
                    HitPart::Head => old(self).health - head_damage,
                    HitPart::Elsewhere => old(self).health as int,
                }
            }),
            final(self).head == old(self).head,
            final(self).body == old(self).body,
            final(self).facing == old(self).facing,
            final(self).owner == old(self).owner,
            final(self).head_body_joint == old(self).head_body_joint,
            final(self).last_jump == old(self).last_jump,
            final(self).player_target == old(self).player_target,
    {
        if self.health <= 0 {
            return;
        }
        match part {
            HitPart::Body => {
                self.health = self.health - body_damage;
            },
            HitPart::Head => {
                self.health = self.health - head_damage;
            },
            HitPart::Elsewhere => {},
        }
    }

    /// Takes the head off a dead enemy: when the health is 0 or less and the
    /// head is still jointed, the joint is given back (for the caller to
    /// remove, and to let the parts fall apart) and forgotten. Otherwise
    /// nothing changes and the result is `None`.
    pub fn detach_head_if_dead(&mut self) -> (removed: Option<J>)
        ensures
            removed == (if old(self).health <= 0 { old(self).head_body_joint } else { None }),
            final(self).head_body_joint == (if old(self).health <= 0 { None } else { old(self).head_body_joint }),
            final(self).head == old(self).head,
            final(self).body == old(self).body,
            final(self).health == old(self).health,
            final(self).facing == old(self).facing,
            final(self).owner == old(self).owner,
            final(self).last_jump == old(self).last_jump,
            final(self).player_target == old(self).player_target,
    {
        if self.head_body_joint.is_none() {
            return None;
        }
        if self.health <= 0 {
            return self.head_body_joint.take();
        }
        None
    }
}

} // verus!
