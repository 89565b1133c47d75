//! Plain-value model of a key press.
use vstd::prelude::*;

verus! {

/// The key that was pressed, without its modifiers.
#[derive(Clone, Copy, Debug, PartialEq, Eq, Structural)]
pub enum KeyCode {
    Char(char),
    Tab,
    BackTab,
    Enter,
    Esc,
    Backspace,
    Up,
    Down,
    Left,
    Right,
}

/// One key press: the key and the modifiers held with it.
#[derive(Clone, Copy, Debug, PartialEq, Eq, Structural)]
pub struct Key {
    pub code: KeyCode,
    pub ctrl: bool,
    pub alt: bool,
}

impl Key {
    /// A key press without modifiers.
    pub fn plain(code: KeyCode) -> (k: Key)
        ensures
            k == (Key { code, ctrl: false, alt: false }),
    {
        Key { code, ctrl: false, alt: false }
    }
}

} // verus!
