//! A square placed in the editor: who owns it, whether the keyboard steers
//! it, and its context menu, whose "Delete" button removes it. Its body in
//! the physics world, colour and resize handles are kept by the caller.
use vstd::prelude::*;
use crate::menu::{Menu, MenuItem};

verus! {

/// A square of the editor.
pub struct PhysicsSquare {
    pub scale: u32,
    pub owner: String,
    pub controllable: bool,
    pub menu: Option<Menu>,
    pub selected: bool,
    pub dragging: bool,
}

/// Whether a menu with the buttons `items` deletes its square: the first
/// button that is not both clicked and hovered decides, and it deletes when
/// its label is "Delete"; a menu where there is no such button keeps it.
pub open spec fn menu_deletes(items: Seq<MenuItem>) -> bool
    decreases items.len(),
{
    if items.len() == 0 {
        false
    } else if items[0].clicked && items[0].hovered {
        menu_deletes(items.drop_first())
    } else {
        items[0].text@ == "Delete"@
    }
}

/// A square whose menu holds only its "Delete" button, updated from the
/// mouse, is deleted unless that button counts as clicked and hovered, that
/// is unless the mouse is on it and the left button was not pressed this
/// frame.
pub proof fn lemma_delete_button_decides(delete: MenuItem, mouse_inside: bool, left_pressed: bool)
    requires
        delete.text@ == "Delete"@,
        delete.hovered == mouse_inside,
        delete.clicked == (mouse_inside && !left_pressed),
    ensures
        menu_deletes(seq![delete]) == !(mouse_inside && !left_pressed),
{
    let items = seq![delete];
    assert(items[0] == delete);
    assert(items.drop_first() =~= Seq::<MenuItem>::empty());
    assert(!menu_deletes(Seq::<MenuItem>::empty()));
}

fn menu_deletes_exec(items: &Vec<MenuItem>) -> (deletes: bool)
    ensures
        deletes == menu_deletes(items@),
{
    let mut i: usize = 0;
    proof {
        assert(items@.subrange(0, items@.len() as int) =~= items@);
    }
    while i < items.len()
        invariant
            i <= items@.len(),
            menu_deletes(items@) == menu_deletes(items@.subrange(i as int, items@.len() as int)),
        decreases items@.len() - i,
    {
        let item = &items[i];
        proof {
            let rest = items@.subrange(i as int, items@.len() as int);
            assert(rest[0] == items@[i as int]);
            assert(rest.drop_first() =~= items@.subrange(i + 1, items@.len() as int));
        }
        if item.clicked && item.hovered {
            i = i + 1;
            continue;
        }
        let delete = String::from_str("Delete");
        return item.text == delete;
    }
    proof {
        assert(items@.subrange(i as int, items@.len() as int) =~= Seq::<MenuItem>::empty());
    }
    false
}

impl PhysicsSquare {
    /// A new square owned by `owner`: scale 1, no menu, neither selected nor
    /// dragged.
    pub fn new(owner: &String, controllable: bool) -> (s: Self)
        ensures
            s.scale == 1,
            s.owner == *owner,
            s.controllable == controllable,
            s.menu is None,
            !s.selected,
            !s.dragging,
    {
        PhysicsSquare {
            scale: 1,
            owner: owner.clone(),
            controllable,
            menu: None,
            selected: false,
            dragging: false,
        }
    }

    /// The square's context menu, to be changed in place.
    pub fn get_menu(&mut self) -> (menu: &mut Option<Menu>)
        ensures
            *menu == old(self).menu,
            final(self).menu == *final(menu),
            final(self).scale == old(self).scale,
            final(self).owner == old(self).owner,
            final(self).controllable == old(self).controllable,
            final(self).selected == old(self).selected,
            final(self).dragging == old(self).dragging,
    {
        &mut self.menu
    }

    /// Opens the square's context menu, with its one "Delete" button.
    pub fn spawn_menu(&mut self)
        ensures
            final(self).menu matches Some(m) && m@.len() == 1 && m@[0].text@ == "Delete"@
                && !m@[0].hovered && !m@[0].clicked,
            final(self).scale == old(self).scale,
            final(self).owner == old(self).owner,
            final(self).controllable == old(self).controllable,
            final(self).selected == old(self).selected,
            final(self).dragging == old(self).dragging,
    {
        let mut menu = Menu::new();
        menu.add_button(String::from_str("Delete"));
        self.menu = Some(menu);
    }

    /// The square after its menu was looked at: `None` when the menu deletes
    /// it, the square unchanged otherwise. The menu must be open.
    pub fn handle_menu(self) -> (kept: Option<Self>)
        requires
            self.menu is Some,
        ensures
            kept == (if menu_deletes(self.menu->0@) { None } else { Some(self) }),
    {
        let deletes = match &self.menu {
            Some(m) => menu_deletes_exec(m.get_menu_items()),
            None => false,
        };
        if deletes {
            None
        } else {
            Some(self)
        }
    }
}

} // verus!
