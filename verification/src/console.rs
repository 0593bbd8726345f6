//! The in-game debug console: a log of messages that can be shown or hidden,
//! in a window that can be dragged with the mouse. Where the window stands
//! on screen is kept by the caller, which asks the console what a frame's
//! mouse does to it.
use vstd::prelude::*;

verus! {

/// The debug console: whether it is shown, and the messages logged so far,
/// oldest first.
pub struct Console {
    pub enabled: bool,
    pub messages: Vec<String>,
}

/// What one frame of mouse input does to the console's window.
#[derive(Clone, Copy, PartialEq, Eq, Structural, Debug)]
pub enum WindowMove {
    /// Nothing.
    Stay,
    /// The drag ends: forget the grab offset.
    Release,
    /// A drag starts: remember the offset from the mouse to the window's
    /// corner (the window stays where it is).
    Grab,
    /// The drag goes on: put the window's corner at the mouse plus the
    /// remembered offset.
    Follow,
}

impl Console {
    /// A hidden console with no messages.
    pub fn new() -> (c: Self)
        ensures
            !c.enabled,
            c.messages@.len() == 0,
    {
        Console { enabled: false, messages: Vec::new() }
    }

    /// Appends `message` to the log.
    pub fn log(&mut self, message: String)
        ensures
            final(self).enabled == old(self).enabled,
            final(self).messages@ == old(self).messages@.push(message),
    {
        self.messages.push(message);
    }

    /// What this frame's mouse does to the window: nothing while the mouse is
    /// outside it and no drag is going on, or while the console is hidden;
    /// releasing the left button ends a drag; holding it starts one, or
    /// carries one on when it is `dragging` already.
    pub fn move_window(&self, mouse_inside: bool, dragging: bool, left_down: bool) -> (step: WindowMove)
        ensures
            step == (if !mouse_inside && !dragging {
                WindowMove::Stay
            } else if !self.enabled {
                WindowMove::Stay
            } else if !left_down {
                WindowMove::Release
            } else if dragging {
                WindowMove::Follow
            } else {
                WindowMove::Grab
            }),
    {
        if !mouse_inside && !dragging {
            return WindowMove::Stay;
        }
        if !self.enabled {
            return WindowMove::Stay;
        }
        if !left_down {
            return WindowMove::Release;
        }
        // only take the offset when the window starts moving
        if dragging {
            WindowMove::Follow
        } else {
            WindowMove::Grab
        }
    }

    /// Shows the console if it was hidden, hides it if it was shown.
    pub fn toggle(&mut self)
        ensures
            final(self).enabled == !old(self).enabled,
            final(self).messages@ == old(self).messages@,
    {
        self.enabled = !self.enabled;
    }
}

} // verus!
