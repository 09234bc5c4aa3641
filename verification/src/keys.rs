//! Key presses, as the state machine sees them.
use vstd::prelude::*;

verus! {

/// The key that was pressed.
#[derive(Clone, Copy, PartialEq, Eq, Structural, Debug)]
pub enum KeyCode {
    Char(char),
    Enter,
    Esc,
    Backspace,
    Tab,
    BackTab,
    Up,
    Down,
    Left,
    Right,
    /// A function key, by number.
    F(u8),
    /// Any other key.
    Other,
}

/// A key press; `ctrl` is whether Control was held.
#[derive(Clone, Copy, PartialEq, Eq, Structural, Debug)]
pub struct KeyEvent {
    pub code: KeyCode,
    pub ctrl: bool,
}

impl KeyEvent {
    /// A key press without Control.
    pub fn plain(code: KeyCode) -> (r: KeyEvent)
        ensures
            r == (KeyEvent { code, ctrl: false }),
    {
        KeyEvent { code, ctrl: false }
    }

    /// Whether this is Control and the given character.
    pub open spec fn is_ctrl_char(self, c: char) -> bool {
        self.ctrl && self.code == KeyCode::Char(c)
    }
}

} // verus!
