//! The standalone level editor: which structures a frame's keys place, and
//! the state of a placed structure. The structure's body and collider are
//! made by the caller at the mouse; `R` and `C` are the types of their
//! handles and `P` of a point.
use vstd::prelude::*;
use crate::menu::Menu;

verus! {

/// How a placed structure's body moves.
#[derive(Clone, Copy, PartialEq, Eq, Structural, Debug)]
pub enum BodyKind {
    /// Moved by the physics simulation.
    Dynamic,
    /// Held in place.
    Fixed,
}

/// The structures to place at the mouse this frame, in order: a dynamic one
/// when E was pressed, then a fixed one when Q was pressed.
pub fn structures_to_spawn(e_pressed: bool, q_pressed: bool) -> (kinds: Vec<BodyKind>)
    ensures
        kinds@ == (if e_pressed { seq![BodyKind::Dynamic] } else { Seq::<BodyKind>::empty() })
            + (if q_pressed { seq![BodyKind::Fixed] } else { Seq::<BodyKind>::empty() }),
{
    let mut kinds: Vec<BodyKind> = Vec::new();
    if e_pressed {
        kinds.push(BodyKind::Dynamic);
    }
    if q_pressed {
        kinds.push(BodyKind::Fixed);
    }
    proof {
        assert(kinds@ =~= (if e_pressed { seq![BodyKind::Dynamic] } else { Seq::<BodyKind>::empty() })
            + (if q_pressed { seq![BodyKind::Fixed] } else { Seq::<BodyKind>::empty() }));
    }
    kinds
}

/// A placed structure.
pub struct Structure<R, C, P> {
    pub rigid_body_handle: R,
    pub collider_handle: C,
    pub menu: Option<Menu>,
    pub selected: bool,
    pub dragging: bool,
    pub drag_offset: Option<P>,
}

impl<R, C, P> Structure<R, C, P> {
    /// A structure just placed on the body and collider the caller made: no
    /// menu open, not selected or dragged.
    pub fn new(rigid_body_handle: R, collider_handle: C) -> (s: Self)
        ensures
            s.rigid_body_handle == rigid_body_handle,
            s.collider_handle == collider_handle,
            s.menu is None,
            !s.selected,
            !s.dragging,
            s.drag_offset is None,
    {
        Structure { rigid_body_handle, collider_handle, menu: None, selected: false, dragging: false, drag_offset: None }
    }
}

} // verus!
