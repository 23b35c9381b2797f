//! Input events as the controller sees them.

use vstd::prelude::*;

verus! {

/// A key press, already decoded by the terminal back end.
#[derive(Clone, Copy, Debug, PartialEq, Eq, Structural)]
pub enum Key {
    /// A printable character.
    Char(char),
    /// A character pressed together with the control key.
    Ctrl(char),
    Backspace,
    Enter,
    Esc,
    Up,
    Down,
    ScrollUp,
    ScrollDown,
    Tab,
}

/// What the event loop pushes into the controller.
#[derive(Clone, Copy, Debug, PartialEq, Eq, Structural)]
pub enum Event {
    /// A key was pressed.
    Input(Key),
    /// Time passed without input.
    Tick,
}

/// The reserved bindings that the controller handles itself, before any view.
pub open spec fn is_global_keybind(key: Key) -> bool {
    key == Key::Ctrl('d')
}

/// Whether `event` is a key press on a reserved binding.
pub open spec fn is_global_event(event: Event) -> bool {
    match event {
        Event::Input(key) => is_global_keybind(key),
        Event::Tick => false,
    }
}

/// Decides `is_global_event` at run time.
pub fn event_is_global(event: &Event) -> (global: bool)
    ensures
        global == is_global_event(*event),
{
    match event {
        Event::Input(Key::Ctrl(c)) => *c == 'd',
        _ => false,
    }
}

} // verus!
