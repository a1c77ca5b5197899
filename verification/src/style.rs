//! Plain description of terminal colors and cell styles. The terminal front
//! end converts these into the styles of its drawing library.

use vstd::prelude::*;

verus! {

/// A terminal color.
#[derive(Debug, Clone, Copy, PartialEq, Eq, Hash, Structural)]
pub enum Color {
    Reset,
    Black,
    Red,
    Green,
    Yellow,
    Blue,
    Magenta,
    Cyan,
    Gray,
    DarkGray,
    LightRed,
    LightGreen,
    LightYellow,
    LightBlue,
    LightMagenta,
    LightCyan,
    White,
    Rgb(u8, u8, u8),
    Indexed(u8),
}

/// The style of a run of terminal cells: foreground and background colors,
/// when set, and whether the text is bold.
#[derive(Debug, Clone, Copy, PartialEq, Eq, Structural)]
pub struct CellStyle {
    pub fg: Option<Color>,
    pub bg: Option<Color>,
    pub bold: bool,
}

impl CellStyle {
    /// A style with only a foreground color.
    pub fn fg(color: Color) -> (r: Self)
        ensures
            r == (CellStyle { fg: Some(color), bg: None, bold: false }),
    {
        CellStyle { fg: Some(color), bg: None, bold: false }
    }

    /// A style with foreground and background colors.
    pub fn colors(fg: Color, bg: Color) -> (r: Self)
        ensures
            r == (CellStyle { fg: Some(fg), bg: Some(bg), bold: false }),
    {
        CellStyle { fg: Some(fg), bg: Some(bg), bold: false }
    }
}

/// Text modifiers, as bits: bold 1, dim 2, italic 4, underlined 8, slow
/// blink 16, rapid blink 32, reversed 64, hidden 128, crossed out 256.
#[derive(Debug, Clone, Copy, PartialEq, Eq, Structural)]
pub struct Modifier {
    pub bits: u16,
}

impl Modifier {
    pub fn empty() -> (r: Self)
        ensures
            r.bits == 0,
    {
        Modifier { bits: 0 }
    }

    pub fn bold() -> (r: Self)
        ensures
            r.bits == 1,
    {
        Modifier { bits: 1 }
    }

    pub fn dim() -> (r: Self)
        ensures
            r.bits == 2,
    {
        Modifier { bits: 2 }
    }

    pub fn italic() -> (r: Self)
        ensures
            r.bits == 4,
    {
        Modifier { bits: 4 }
    }

    pub fn underlined() -> (r: Self)
        ensures
            r.bits == 8,
    {
        Modifier { bits: 8 }
    }

    pub fn slow_blink() -> (r: Self)
        ensures
            r.bits == 16,
    {
        Modifier { bits: 16 }
    }

    pub fn rapid_blink() -> (r: Self)
        ensures
            r.bits == 32,
    {
        Modifier { bits: 32 }
    }

    pub fn reversed() -> (r: Self)
        ensures
            r.bits == 64,
    {
        Modifier { bits: 64 }
    }

    pub fn hidden() -> (r: Self)
        ensures
            r.bits == 128,
    {
        Modifier { bits: 128 }
    }

    /// The modifiers of both.
    pub fn union(self, other: Self) -> (r: Self)
        ensures
            r.bits == self.bits | other.bits,
    {
        Modifier { bits: self.bits | other.bits }
    }

    /// Whether every modifier of `other` is among these.
    pub fn contains(self, other: Self) -> (r: bool)
        ensures
            r == (self.bits & other.bits == other.bits),
    {
        self.bits & other.bits == other.bits
    }
}

/// A full text style: colors, underline color and added modifiers.
#[derive(Debug, Clone, Copy, PartialEq, Eq, Structural)]
pub struct Style {
    pub fg: Option<Color>,
    pub bg: Option<Color>,
    pub underline_color: Option<Color>,
    pub add_modifier: Modifier,
}

/// The kinds of border line.
#[derive(Debug, Clone, Copy, PartialEq, Eq, Structural)]
pub enum BorderType {
    Plain,
    Rounded,
    Double,
    Thick,
}

} // verus!
