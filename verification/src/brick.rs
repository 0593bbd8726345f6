//! A brick that players throw and that the editor can place: who owns it in
//! the game and in the editor, and its editing state. Its body in the physics
//! world is kept by the caller.
use vstd::prelude::*;

verus! {

/// A brick.
pub struct Brick {
    pub selected: bool,
    pub dragging: bool,
    pub texture_path: String,
    /// The client that simulates it in the game.
    pub owner: Option<String>,
    /// The editor client that last clicked it.
    pub editor_owner: Option<String>,
}

impl Brick {
    /// A new brick owned by `owner`, drawn from the brick texture, not
    /// selected, dragged or claimed by an editor.
    pub fn new(owner: Option<String>) -> (b: Self)
        ensures
            !b.selected,
            !b.dragging,
            b.texture_path@ == "assets/structure/brick.png"@,
            b.owner == owner,
            b.editor_owner is None,
    {
        Brick {
            selected: false,
            dragging: false,
            texture_path: String::from_str("assets/structure/brick.png"),
            owner,
            editor_owner: None,
        }
    }

    /// Hands the brick to the editor client `editor_uuid` when it clicks it:
    /// when the left button was pressed this frame with the mouse on the
    /// brick. Otherwise nothing changes.
    pub fn update_editor_owner(&mut self, editor_uuid: &String, left_pressed: bool, mouse_inside: bool)
        ensures
            final(self).editor_owner == (if left_pressed && mouse_inside {
                Some(*editor_uuid)
            } else {
                old(self).editor_owner
            }),
            final(self).selected == old(self).selected,
            final(self).dragging == old(self).dragging,
            final(self).texture_path == old(self).texture_path,
            final(self).owner == old(self).owner,
    {
        if !left_pressed {
            return;
        }
        if !mouse_inside {
            return;
        }
        self.editor_owner = Some(editor_uuid.clone());
    }
}

} // verus!
