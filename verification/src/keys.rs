//! Plain description of a key press: the key, and the modifier keys held.
//! The terminal front end converts its key events into these values.

use vstd::prelude::*;

verus! {

/// The key of a key press.
#[derive(Debug, Clone, Copy, PartialEq, Eq, Hash, Structural)]
pub enum KeyCode {
    Backspace,
    Enter,
    Left,
    Right,
    Up,
    Down,
    Home,
    End,
    PageUp,
    PageDown,
    Tab,
    BackTab,
    Delete,
    Insert,
    F(u8),
    Char(char),
    Null,
    Esc,
    CapsLock,
    ScrollLock,
    NumLock,
    PrintScreen,
    Pause,
    Menu,
    KeypadBegin,
    /// A media key or a lone modifier key.
    Other,
}

/// The modifier keys held during a key press, as a bit set.
#[derive(Debug, Clone, Copy, PartialEq, Eq, Hash, Structural)]
pub struct KeyModifiers {
    pub bits: u8,
}

impl KeyModifiers {
    /// The `shift` modifier alone.
    pub fn shift() -> (r: Self)
        ensures
            r.bits == 1,
    {
        KeyModifiers { bits: 1 }
    }

    /// The `control` modifier alone.
    pub fn control() -> (r: Self)
        ensures
            r.bits == 2,
    {
        KeyModifiers { bits: 2 }
    }

    /// The `alt` modifier alone.
    pub fn alt() -> (r: Self)
        ensures
            r.bits == 4,
    {
        KeyModifiers { bits: 4 }
    }

    /// The `super_key` modifier alone.
    pub fn super_key() -> (r: Self)
        ensures
            r.bits == 8,
    {
        KeyModifiers { bits: 8 }
    }

    /// The `hyper` modifier alone.
    pub fn hyper() -> (r: Self)
        ensures
            r.bits == 16,
    {
        KeyModifiers { bits: 16 }
    }

    /// The `meta` modifier alone.
    pub fn meta() -> (r: Self)
        ensures
            r.bits == 32,
    {
        KeyModifiers { bits: 32 }
    }

    /// No modifier held.
    pub fn empty() -> (r: Self)
        ensures
            r.bits == 0,
    {
        KeyModifiers { bits: 0 }
    }

    /// Whether no modifier is held.
    pub fn is_empty(&self) -> (r: bool)
        ensures
            r == (self.bits == 0),
    {
        self.bits == 0
    }

    /// Whether every modifier of `other` is held.
    pub fn contains(&self, other: KeyModifiers) -> (r: bool)
        ensures
            r == (self.bits & other.bits == other.bits),
    {
        self.bits & other.bits == other.bits
    }

    /// The modifiers of both sets.
    pub fn union(&self, other: KeyModifiers) -> (r: KeyModifiers)
        ensures
            r.bits == self.bits | other.bits,
    {
        KeyModifiers { bits: self.bits | other.bits }
    }
}

/// A key press.
#[derive(Debug, Clone, Copy, PartialEq, Eq, Hash, Structural)]
pub struct KeyEvent {
    pub code: KeyCode,
    pub modifiers: KeyModifiers,
}

impl KeyEvent {
    /// A key press of `code` with `modifiers` held.
    pub fn new(code: KeyCode, modifiers: KeyModifiers) -> (r: Self)
        ensures
            r.code == code,
            r.modifiers == modifiers,
    {
        KeyEvent { code, modifiers }
    }
}

/// Whether `c` is an ASCII decimal digit.
pub open spec fn is_ascii_digit_spec(c: char) -> bool {
    '0' <= c && c <= '9'
}

/// Whether `c` is an ASCII decimal digit.
pub fn is_ascii_digit(c: char) -> (r: bool)
    ensures
        r == is_ascii_digit_spec(c),
{
    '0' <= c && c <= '9'
}

} // verus!
