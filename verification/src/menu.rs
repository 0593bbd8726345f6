//! Context menus of the editor: a column of buttons that react to the mouse.
//! Where the buttons stand and how they are coloured is kept by the renderer,
//! which tells the menu, each frame, which buttons the mouse is over.
use vstd::prelude::*;

verus! {

/// One button of a menu: its label, and how the mouse stood on it at the
/// last update.
pub struct MenuItem {
    pub text: String,
    pub hovered: bool,
    pub clicked: bool,
}

impl MenuItem {
    /// Takes this frame's mouse: the button is hovered when the mouse is
    /// inside it, and counts as clicked when the mouse is inside it and the
    /// left button was not pressed down this frame.
    pub fn update(&mut self, mouse_inside: bool, left_pressed: bool)
        ensures
            final(self).text == old(self).text,
            final(self).hovered == mouse_inside,
            final(self).clicked == (mouse_inside && !left_pressed),
    {
        self.hovered = false;
        self.clicked = false;
        if mouse_inside {
            self.hovered = true;
            if left_pressed != true {
                self.clicked = true;
            }
        }
    }
}

/// A menu: its buttons, top to bottom.
pub struct Menu {
    items: Vec<MenuItem>,
}

impl View for Menu {
    type V = Seq<MenuItem>;

    closed spec fn view(&self) -> Seq<MenuItem> {
        self.items@
    }
}

impl Menu {
    /// A menu without buttons.
    pub fn new() -> (m: Self)
        ensures
            m@ == Seq::<MenuItem>::empty(),
    {
        Menu { items: Vec::new() }
    }

    /// Adds a button labelled `text` below the others, neither hovered nor
    /// clicked.
    pub fn add_button(&mut self, text: String)
        ensures
            final(self)@ == old(self)@.push(MenuItem { text, hovered: false, clicked: false }),
    {
        self.items.push(MenuItem { text, hovered: false, clicked: false });
    }

    /// Updates every button from this frame's mouse: `mouse_inside[i]` says
    /// whether the mouse is over the `i`-th button.
    pub fn update(&mut self, mouse_inside: &Vec<bool>, left_pressed: bool)
        requires
            mouse_inside@.len() == old(self)@.len(),
        ensures
            final(self)@.len() == old(self)@.len(),
            forall|i: int| 0 <= i < old(self)@.len() ==> #[trigger] final(self)@[i] == (MenuItem {
                text: old(self)@[i].text,
                hovered: mouse_inside@[i],
                clicked: mouse_inside@[i] && !left_pressed,
            }),
    {
        let mut i: usize = 0;
        while i < self.items.len()
            invariant
                mouse_inside@.len() == old(self)@.len(),
                self@.len() == old(self)@.len(),
                i <= self@.len(),
                forall|k: int| 0 <= k < i ==> #[trigger] self@[k] == (MenuItem {
                    text: old(self)@[k].text,
                    hovered: mouse_inside@[k],
                    clicked: mouse_inside@[k] && !left_pressed,
                }),
                forall|k: int| i <= k < self@.len() ==> #[trigger] self@[k] == old(self)@[k],
            decreases self@.len() - i,
        {
            let mut item = self.items.remove(i);
            item.update(mouse_inside[i], left_pressed);
            self.items.insert(i, item);
            i = i + 1;
        }
    }

    /// The buttons, top to bottom.
    pub fn get_menu_items(&self) -> (items: &Vec<MenuItem>)
        ensures
            items@ == self@,
    {
        &self.items
    }
}

} // verus!
