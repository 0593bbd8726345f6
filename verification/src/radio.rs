//! A radio that the editor can place, and the builder that assembles one
//! with defaults for whatever was not set. `B` and `C` are the handles of
//! its body and collider in the physics world, which the caller creates; `P`
//! is the type of a point.
use vstd::prelude::*;

verus! {

/// A radio.
pub struct Radio<B, C, P> {
    pub rigid_body_handle: B,
    pub collider_handle: C,
    pub selected: bool,
    pub texture_path: String,
    pub dragging: bool,
    pub drag_offset: Option<P>,
    pub owner: Option<String>,
    pub editor_owner: Option<String>,
}

impl<B, C, P> Radio<B, C, P> {
    /// Whether the editor client `client_uuid` edits the radio this tick
    /// (updates whether it is selected): only its editor owner does. The
    /// radio must have one.
    pub fn tick_editor(&self, client_uuid: &String) -> (edits: bool)
        requires
            self.editor_owner is Some,
        ensures
            edits == (self.editor_owner->0@ == client_uuid@),
    {
        match &self.editor_owner {
            Some(owner) => *owner == *client_uuid,
            None => false,
        }
    }
}

/// The parts of a radio set so far.
pub struct RadioBuilder<B, C, P> {
    pub rigid_body_handle: Option<B>,
    pub collider_handle: Option<C>,
    pub selected: Option<bool>,
    pub dragging: Option<bool>,
    pub drag_offset: Option<Option<P>>,
    pub owner: Option<Option<String>>,
    pub editor_owner: Option<Option<String>>,
    pub texture_path: Option<String>,
}

impl<B, C, P> RadioBuilder<B, C, P> {
    /// A builder for a radio whose body and collider the caller has just
    /// created; nothing else is set.
    pub fn new(rigid_body_handle: B, collider_handle: C) -> (b: Self)
        ensures
            b == (RadioBuilder::<B, C, P> {
                rigid_body_handle: Some(rigid_body_handle),
                collider_handle: Some(collider_handle),
                selected: None,
                dragging: None,
                drag_offset: None,
                owner: None,
                editor_owner: None,
                texture_path: None,
            }),
    {
        RadioBuilder {
            rigid_body_handle: Some(rigid_body_handle),
            collider_handle: Some(collider_handle),
            selected: None,
            dragging: None,
            drag_offset: None,
            owner: None,
            editor_owner: None,
            texture_path: None,
        }
    }

    /// Sets the body.
    pub fn rigid_body_handle(self, rigid_body_handle: B) -> (b: Self)
        ensures
            b == (RadioBuilder { rigid_body_handle: Some(rigid_body_handle), ..self }),
    {
        RadioBuilder { rigid_body_handle: Some(rigid_body_handle), ..self }
    }

    /// Sets the collider.
    pub fn collider_handle(self, collider_handle: C) -> (b: Self)
        ensures
            b == (RadioBuilder { collider_handle: Some(collider_handle), ..self }),
    {
        RadioBuilder { collider_handle: Some(collider_handle), ..self }
    }

    /// Sets whether it is selected.
    pub fn selected(self, selected: bool) -> (b: Self)
        ensures
            b == (RadioBuilder { selected: Some(selected), ..self }),
    {
        RadioBuilder { selected: Some(selected), ..self }
    }

    /// Sets whether it is dragged.
    pub fn dragging(self, dragging: bool) -> (b: Self)
        ensures
            b == (RadioBuilder { dragging: Some(dragging), ..self }),
    {
        RadioBuilder { dragging: Some(dragging), ..self }
    }

    /// Sets the offset of the mouse while dragging.
    pub fn drag_offset(self, drag_offset: P) -> (b: Self)
        ensures
            b == (RadioBuilder { drag_offset: Some(Some(drag_offset)), ..self }),
    {
        RadioBuilder { drag_offset: Some(Some(drag_offset)), ..self }
    }

    /// Sets the owning client.
    pub fn owner(self, owner: String) -> (b: Self)
        ensures
            b == (RadioBuilder { owner: Some(Some(owner)), ..self }),
    {
        RadioBuilder { owner: Some(Some(owner)), ..self }
    }

    /// Sets the owning editor client.
    pub fn editor_owner(self, editor_owner: String) -> (b: Self)
        ensures
            b == (RadioBuilder { editor_owner: Some(Some(editor_owner)), ..self }),
    {
        RadioBuilder { editor_owner: Some(Some(editor_owner)), ..self }
    }

    /// Sets the texture.
    pub fn texture_path(self, texture_path: String) -> (b: Self)
        ensures
            b == (RadioBuilder { texture_path: Some(texture_path), ..self }),
    {
        RadioBuilder { texture_path: Some(texture_path), ..self }
    }

    /// The radio, with the defaults for what was not set: not selected, not
    /// dragged, a drag offset of `origin` (the zero vector), no owner and no
    /// editor owner, and the texture of a radio that is on. The body and the
    /// collider must be set.
    pub fn build(self, origin: P) -> (radio: Radio<B, C, P>)
        requires
            self.rigid_body_handle is Some,
            self.collider_handle is Some,
        ensures
            radio.rigid_body_handle == self.rigid_body_handle->0,
            radio.collider_handle == self.collider_handle->0,
            radio.selected == (match self.selected {
                Some(s) => s,
                None => false,
            }),
            radio.dragging == (match self.dragging {
                Some(d) => d,
                None => false,
            }),
            radio.drag_offset == (match self.drag_offset {
                Some(d) => d,
                None => Some(origin),
            }),
            radio.owner == (match self.owner {
                Some(o) => o,
                None => None,
            }),
            radio.editor_owner == (match self.editor_owner {
                Some(o) => o,
                None => None,
            }),
            match self.texture_path {
                Some(t) => radio.texture_path == t,
                None => radio.texture_path@ == "assets/structure/radio_on.png"@,
            },
    {
        let RadioBuilder {
            rigid_body_handle,
            collider_handle,
            selected,
            dragging,
            drag_offset,
            owner,
            editor_owner,
            texture_path,
        } = self;
        let rigid_body_handle = rigid_body_handle.unwrap();
        let collider_handle = collider_handle.unwrap();
        let selected = match selected {
            Some(selected) => selected,
            None => false,
        };
        let dragging = match dragging {
            Some(dragging) => dragging,
            None => false,
        };
        let drag_offset = match drag_offset {
            Some(drag_offset) => drag_offset,
            None => Some(origin),
        };
        let owner: Option<String> = match owner {
            Some(owner) => owner,
            None => None,
        };
        let editor_owner = match editor_owner {
            Some(editor_owner) => editor_owner,
            None => None,
        };
        let texture_path = match texture_path {
            Some(texture_path) => texture_path,
            None => String::from_str("assets/structure/radio_on.png"),
        };
        Radio {
            rigid_body_handle,
            collider_handle,
            selected,
            dragging,
            drag_offset,
            owner,
            editor_owner,
            texture_path,
        }
    }
}

} // verus!
