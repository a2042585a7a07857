//! Keyboard and mouse events as plain values.
use vstd::prelude::*;

verus! {

#[derive(Clone, Copy, PartialEq, Eq, Structural, Debug)]
pub enum KeyCode {
    Backspace,
    Enter,
    Left,
    Right,
    Up,
    Down,
    Home,
    End,
    PageUp,
    PageDown,
    Tab,
    BackTab,
    Delete,
    Esc,
    F(u8),
    Char(char),
    Other,
}

/// A key press; `control` tells whether the Control key was held.
#[derive(Clone, Copy, PartialEq, Eq, Structural, Debug)]
pub struct KeyEvent {
    pub code: KeyCode,
    pub control: bool,
}

impl KeyEvent {
    /// A press of `code` without Control.
    pub fn plain(code: KeyCode) -> (r: KeyEvent)
        ensures
            r == (KeyEvent { code, control: false }),
    {
        KeyEvent { code, control: false }
    }

    /// Whether this is the Control combination of a letter.
    pub open spec fn chord(self, c: char) -> bool {
        self.control && self.code == KeyCode::Char(c)
    }

    pub fn is_chord(&self, c: char) -> (r: bool)
        ensures
            r == self.chord(c),
    {
        match self.code {
            KeyCode::Char(d) => self.control && c == d,
            _ => false,
        }
    }
}

#[derive(Clone, Copy, PartialEq, Eq, Structural, Debug)]
pub enum MouseKind {
    LeftDown,
    LeftUp,
    ScrollUp,
    ScrollDown,
    Other,
}

#[derive(Clone, Copy, PartialEq, Eq, Structural, Debug)]
pub struct MouseEvent {
    pub kind: MouseKind,
    pub column: u16,
    pub row: u16,
}

} // verus!
