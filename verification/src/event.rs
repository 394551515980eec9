//! Input events, as plain values.
//!
//! The application reacts to what a terminal reports: keys, and a handful of
//! other happenings that it ignores. These types hold exactly what the
//! transition rules read; a driver turns what its terminal library delivers
//! into them.

use vstd::prelude::*;

verus! {

/// Which key an event is about.
#[derive(Clone, Copy, Debug, PartialEq, Eq, Structural)]
pub enum KeyCode {
    /// A character key, with the character it produced.
    Char(char),
    /// Left arrow.
    Left,
    /// Right arrow.
    Right,
    /// Up arrow.
    Up,
    /// Down arrow.
    Down,
    /// Enter.
    Enter,
    /// Escape.
    Esc,
    /// Backspace.
    Backspace,
    /// Tab.
    Tab,
    /// Any key that has no variant of its own.
    Other,
}

/// What happened to the key.
#[derive(Clone, Copy, Debug, PartialEq, Eq, Structural)]
pub enum KeyEventKind {
    /// The key went down.
    Press,
    /// The key is held and repeats.
    Repeat,
    /// The key came up.
    Release,
}

/// One keyboard event.
#[derive(Clone, Copy, Debug, PartialEq, Eq, Structural)]
pub struct KeyEvent {
    /// The key.
    pub code: KeyCode,
    /// Whether it was pressed, repeated or released.
    pub kind: KeyEventKind,
}

/// One event from the terminal.
#[derive(Clone, Copy, Debug, PartialEq, Eq, Structural)]
pub enum InputEvent {
    /// A keyboard event.
    Key(KeyEvent),
    /// A mouse event.
    Mouse,
    /// Text was pasted.
    Paste,
    /// The terminal was resized to this many columns and rows.
    Resize(u16, u16),
    /// The terminal gained focus.
    FocusGained,
    /// The terminal lost focus.
    FocusLost,
}

impl KeyCode {
    /// Whether this key asks the application to quit: `q` in either case.
    pub open spec fn is_quit(self) -> bool {
        self == KeyCode::Char('q') || self == KeyCode::Char('Q')
    }
}

impl KeyEvent {
    /// A press of `code`.
    pub open spec fn pressed(code: KeyCode) -> KeyEvent {
        KeyEvent { code, kind: KeyEventKind::Press }
    }

    /// Whether the event is a key press, the only kind that is acted upon.
    pub open spec fn is_press(self) -> bool {
        self.kind == KeyEventKind::Press
    }

    /// A press of `code`.
    pub fn new(code: KeyCode) -> (event: KeyEvent)
        ensures
            event == KeyEvent::pressed(code),
    {
        KeyEvent { code, kind: KeyEventKind::Press }
    }

    /// An event of the given kind for `code`.
    pub fn new_with_kind(code: KeyCode, kind: KeyEventKind) -> (event: KeyEvent)
        ensures
            event.code == code,
            event.kind == kind,
    {
        KeyEvent { code, kind }
    }
}

impl From<KeyCode> for KeyEvent {
    /// A press of `code`.
    fn from(code: KeyCode) -> (event: KeyEvent) {
        KeyEvent { code, kind: KeyEventKind::Press }
    }
}

impl vstd::std_specs::convert::FromSpecImpl<KeyCode> for KeyEvent {
    open spec fn obeys_from_spec() -> bool {
        true
    }

    open spec fn from_spec(code: KeyCode) -> KeyEvent {
        KeyEvent::pressed(code)
    }
}

} // verus!
