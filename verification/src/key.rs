//! Key presses as the state machine sees them.

use vstd::prelude::*;

verus! {

/// Which key went down. Keys that the front-end has no use for are all
/// `Other`.
#[derive(Debug, Clone, Copy, PartialEq, Eq, Structural)]
pub enum Key {
    Char(char),
    Enter,
    Backspace,
    Left,
    Right,
    Other,
}

/// One press of a key, with the state of the control modifier.
#[derive(Debug, Clone, Copy, PartialEq, Eq, Structural)]
pub struct KeyPress {
    pub key: Key,
    pub control: bool,
}

impl KeyPress {
    /// Whether this is the chord that ends the program: control held, `c`
    /// pressed.
    pub open spec fn exits(self) -> bool {
        self.control && self.key == Key::Char('c')
    }

    /// `key` pressed with no modifier.
    pub fn plain(key: Key) -> (press: KeyPress)
        ensures
            press == (KeyPress { key, control: false }),
    {
        KeyPress { key, control: false }
    }

    /// `key` pressed while control is held.
    pub fn with_control(key: Key) -> (press: KeyPress)
        ensures
            press == (KeyPress { key, control: true }),
    {
        KeyPress { key, control: true }
    }

    /// Whether this is the chord that ends the program.
    pub fn is_exit_chord(&self) -> (exit: bool)
        ensures
            exit == self.exits(),
    {
        self.control && match self.key {
            Key::Char(c) => c == 'c',
            _ => false,
        }
    }
}

} // verus!
