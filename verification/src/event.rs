//! Input events and screen regions as plain values. The terminal layer
//! turns what it reads and lays out into these before handing them over.

use vstd::prelude::*;

verus! {

/// The key that an event is about.
#[derive(Clone, Copy, Debug, PartialEq, Eq, Structural)]
pub enum KeyCode {
    Char(char),
    Enter,
    Backspace,
    Left,
    Right,
    Tab,
    Esc,
    /// Any key that no handler listens to.
    Other,
}

/// Whether the key went down, is held, or came up.
#[derive(Clone, Copy, Debug, PartialEq, Eq, Structural)]
pub enum KeyEventKind {
    Press,
    Repeat,
    Release,
}

/// A key together with what happened to it.
#[derive(Clone, Copy, Debug, PartialEq, Eq, Structural)]
pub struct KeyEvent {
    pub code: KeyCode,
    pub kind: KeyEventKind,
}

/// What the terminal reports.
#[derive(Clone, Copy, Debug, PartialEq, Eq, Structural)]
pub enum Event {
    Key(KeyEvent),
    /// Mouse, resize, paste, focus: nothing here reacts to them.
    Other,
}

impl Event {
    /// The key of a key press; `None` for everything else.
    pub open spec fn pressed(self) -> Option<KeyCode> {
        match self {
            Event::Key(key) => if key.kind == KeyEventKind::Press {
                Some(key.code)
            } else {
                None
            },
            Event::Other => None,
        }
    }

    /// The key of a key press; `None` for everything else.
    pub fn pressed_key(&self) -> (code: Option<KeyCode>)
        ensures
            code == self.pressed(),
    {
        match self {
            Event::Key(key) => {
                match key.kind {
                    KeyEventKind::Press => Some(key.code),
                    _ => None,
                }
            },
            Event::Other => None,
        }
    }
}

/// A rectangle of screen cells: its top-left corner and its size.
#[derive(Clone, Copy, Debug, PartialEq, Eq, Structural)]
pub struct Rect {
    pub x: u16,
    pub y: u16,
    pub width: u16,
    pub height: u16,
}

impl Rect {
    /// The empty rectangle at the origin.
    pub fn empty() -> (r: Rect)
        ensures
            r == (Rect { x: 0, y: 0, width: 0, height: 0 }),
    {
        Rect { x: 0, y: 0, width: 0, height: 0 }
    }
}

} // verus!
