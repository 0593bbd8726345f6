//! What entities share: health that can be damaged, an owning client and a
//! sprite scale; and the entities whose state is plain values (a tree that
//! can be chopped, a piece of wood that can be dragged), and the rule that
//! keeps a body grabbed by the mouse. Their on-screen rectangles and the
//! distances between bodies are kept by the caller.
use vstd::prelude::*;

verus! {

/// Something with health that can be damaged.
pub trait Damagable {
    /// The current health.
    spec fn health(&self) -> i32;

    /// Reduces the health by `damage`.
    fn damage(&mut self, damage: i32)
        requires
            i32::MIN <= old(self).health() - damage <= i32::MAX,
        ensures
            final(self).health() == old(self).health() - damage,
    {
        let health = self.get_health();
        self.set_health(health - damage);
    }

    fn get_health(&self) -> (health: i32)
        ensures
            health == self.health(),
    ;

    fn set_health(&mut self, health: i32)
        ensures
            final(self).health() == health,
    ;
}

/// Something owned by one client, named by that client's id.
pub trait HasOwner {
    /// The owner's id.
    spec fn owner(&self) -> Seq<char>;

    fn get_owner(&self) -> (owner: String)
        ensures
            owner@ == self.owner(),
    ;

    fn set_owner(&mut self, uuid: String)
        ensures
            final(self).owner() == uuid@,
    ;
}

/// Something drawn at an integer scale.
pub trait Scale {
    spec fn scale(&self) -> u32;

    fn get_scale(&self) -> (scale: u32)
        ensures
            scale == self.scale(),
    ;
}

/// A tree: drawn from `texture_path` at `scale`, highlighted while the mouse
/// is over it, chopped down by damage.
pub struct Tree {
    pub texture_path: String,
    pub scale: u32,
    pub highlighted: bool,
    pub health: i32,
}

impl Tree {
    /// A tree with full health (100), drawn at scale 2, not highlighted.
    pub fn new() -> (t: Self)
        ensures
            t.texture_path@ == "assets/structure/tree.png"@,
            t.scale == 2,
            !t.highlighted,
            t.health == 100,
    {
        Self {
            texture_path: String::from_str("assets/structure/tree.png"),
            scale: 2,
            highlighted: false,
            health: 100,
        }
    }

    pub fn get_highlighted(&self) -> (h: bool)
        ensures
            h == self.highlighted,
    {
        self.highlighted
    }

    pub fn set_highlighted(&mut self, highlighted: bool)
        ensures
            final(self).highlighted == highlighted,
            final(self).health == old(self).health,
            final(self).scale == old(self).scale,
            final(self).texture_path@ == old(self).texture_path@,
    {
        self.highlighted = highlighted;
    }
}

impl Damagable for Tree {
    open spec fn health(&self) -> i32 {
        self.health
    }

    fn get_health(&self) -> (health: i32) {
        self.health
    }

    fn set_health(&mut self, health: i32) {
        self.health = health;
    }
}

impl Scale for Tree {
    open spec fn scale(&self) -> u32 {
        self.scale
    }

    fn get_scale(&self) -> (scale: u32) {
        self.scale
    }
}

/// A piece of wood that a player can drag around.
pub struct Wood {
    pub dragging: bool,
    pub texture_path: String,
    pub scale: u32,
    pub owner: String,
}

impl Wood {
    /// A piece of wood owned by `owner_uuid`, drawn at scale 2, not dragged.
    pub fn new(owner_uuid: String) -> (w: Self)
        ensures
            !w.dragging,
            w.texture_path@ == "assets/wood.png"@,
            w.scale == 2,
            w.owner@ == owner_uuid@,
    {
        Self {
            dragging: false,
            texture_path: String::from_str("assets/wood.png"),
            scale: 2,
            owner: owner_uuid,
        }
    }

    pub fn get_dragging(&self) -> (d: bool)
        ensures
            d == self.dragging,
    {
        self.dragging
    }

    pub fn set_dragging(&mut self, dragging: bool)
        ensures
            final(self).dragging == dragging,
            final(self).owner@ == old(self).owner@,
            final(self).scale == old(self).scale,
            final(self).texture_path@ == old(self).texture_path@,
    {
        self.dragging = dragging;
    }
}

impl HasOwner for Wood {
    open spec fn owner(&self) -> Seq<char> {
        self.owner@
    }

    fn get_owner(&self) -> (owner: String) {
        self.owner.clone()
    }

    fn set_owner(&mut self, uuid: String) {
        self.owner = uuid;
    }
}

impl Scale for Wood {
    open spec fn scale(&self) -> u32 {
        self.scale
    }

    fn get_scale(&self) -> (scale: u32) {
        self.scale
    }
}

/// Whether something stays grabbed by the mouse after this frame: it is let
/// go when it is too far from the grabbing body along either axis or when
/// the left button is up; otherwise it is grabbed when the mouse is on it,
/// and stays as it was when not.
pub fn update_grabbing(grabbing: &mut bool, too_far_x: bool, too_far_y: bool, left_down: bool, mouse_inside: bool)
    ensures
        *final(grabbing) == (if too_far_x || too_far_y || !left_down {
            false
        } else if !mouse_inside {
            *old(grabbing)
        } else {
            true
        }),
{
    if too_far_x {
        *grabbing = false;
        return;
    }
    if too_far_y {
        *grabbing = false;
        return;
    }
    if !left_down {
        *grabbing = false;
        return;
    }
    if !mouse_inside {
        return;
    }
    *grabbing = true;
}

} // verus!
