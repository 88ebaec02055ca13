//! What the main loop does with each input event.
use crate::tank::Aquarium;
use vstd::prelude::*;

verus! {

/// A key that was pressed.
#[derive(Clone, Copy, Debug, PartialEq, Eq, Structural)]
pub enum Key {
    Char(char),
    Esc,
    Other,
}

/// An event read from the terminal.
#[derive(Clone, Copy, Debug, PartialEq, Eq, Structural)]
pub enum InputEvent {
    Key(Key),
    /// The terminal's new width and height, in cells.
    Resize(u16, u16),
    Other,
}

/// What the main loop should do after an event.
#[derive(Clone, Copy, Debug, PartialEq, Eq, Structural)]
pub enum Action {
    /// Go on with the tick.
    Continue,
    /// Clear the whole screen, then go on with the tick.
    Clear,
    /// Leave the loop.
    Quit,
}

/// Whether pressing `k` ends the program: `q` or escape.
pub open spec fn quits(k: Key) -> bool {
    k == Key::Char('q') || k == Key::Esc
}

/// The action that the loop takes on `ev`.
pub open spec fn action_for(ev: InputEvent) -> Action {
    match ev {
        InputEvent::Key(k) => if quits(k) {
            Action::Quit
        } else {
            Action::Continue
        },
        InputEvent::Resize(_, _) => Action::Clear,
        InputEvent::Other => Action::Continue,
    }
}

impl Aquarium {
    /// Takes in an event: a resize sets the viewport's size; the action to
    /// take is returned.
    pub fn handle_event(&mut self, ev: InputEvent) -> (r: Action)
        ensures
            r == action_for(ev),
            final(self).fishes@ == old(self).fishes@,
            final(self).sharks@ == old(self).sharks@,
            final(self).bubbles@ == old(self).bubbles@,
            match ev {
                InputEvent::Resize(w, h) => final(self).width == w && final(self).height == h,
                _ => (final(self).width, final(self).height) == (old(self).width, old(self).height),
            },
    {
        match ev {
            InputEvent::Key(Key::Char('q')) | InputEvent::Key(Key::Esc) => Action::Quit,
            InputEvent::Key(_) => Action::Continue,
            InputEvent::Resize(w, h) => {
                self.width = w;
                self.height = h;
                Action::Clear
            },
            InputEvent::Other => Action::Continue,
        }
    }
}

} // verus!
