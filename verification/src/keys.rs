//! Key presses, as the state machine sees them.

use vstd::prelude::*;

verus! {

/// No modifier key is held.
pub const NONE: u8 = 0;

/// The bit of the shift key in [`KeyPress::modifiers`].
pub const SHIFT: u8 = 1;

/// The bit of the control key in [`KeyPress::modifiers`].
pub const CONTROL: u8 = 2;

/// The bit of the alt key in [`KeyPress::modifiers`].
pub const ALT: u8 = 4;

/// Which key was pressed.
#[derive(Clone, Copy, Debug)]
pub enum KeyCode {
    /// A key that produces a character.
    Char(char),
    Enter,
    Esc,
    Up,
    Down,
    Left,
    Right,
    Backspace,
    Delete,
    Home,
    End,
    /// Any key that has no meaning to the session or to the text editor.
    Other,
}

/// Whether a key went down, is held, or came up.
#[derive(Clone, Copy, Debug)]
pub enum KeyKind {
    Press,
    Repeat,
    Release,
}

/// One keyboard event.
#[derive(Clone, Copy, Debug)]
pub struct KeyPress {
    pub code: KeyCode,
    /// The modifier keys held, one bit each: see [`SHIFT`], [`CONTROL`], [`ALT`].
    pub modifiers: u8,
    pub kind: KeyKind,
}

/// A key as the text editor gets it: the keys it has a binding for, and
/// `Other` for all the rest.
#[derive(Clone, Copy, Debug)]
pub enum EditKey {
    Char(char),
    Backspace,
    Delete,
    Home,
    End,
    Other,
}

impl KeyPress {
    /// A key pressed with no modifier held.
    pub fn new(code: KeyCode) -> (key: KeyPress)
        ensures
            key == (KeyPress { code, modifiers: NONE, kind: KeyKind::Press }),
    {
        KeyPress { code, modifiers: NONE, kind: KeyKind::Press }
    }

    /// A key pressed with the given modifiers held.
    pub fn with_modifiers(code: KeyCode, modifiers: u8) -> (key: KeyPress)
        ensures
            key == (KeyPress { code, modifiers, kind: KeyKind::Press }),
    {
        KeyPress { code, modifiers, kind: KeyKind::Press }
    }

    /// Whether the control key is held: its bit is set.
    pub open spec fn control(self) -> bool {
        (self.modifiers / CONTROL) % 2 == 1
    }

    /// Whether the alt key is held: its bit is set.
    pub open spec fn alt(self) -> bool {
        (self.modifiers / ALT) % 2 == 1
    }

    /// Whether the control key is held.
    pub fn has_control(&self) -> (b: bool)
        ensures
            b == self.control(),
    {
        (self.modifiers / CONTROL) % 2 == 1
    }

    /// Whether the alt key is held.
    pub fn has_alt(&self) -> (b: bool)
        ensures
            b == self.alt(),
    {
        (self.modifiers / ALT) % 2 == 1
    }
}

} // verus!
