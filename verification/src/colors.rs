//! Color palettes of the light, dark and high contrast schemes, the colors
//! of component states, and conversion between colors and hex notation.

use vstd::prelude::*;
use vstd::string::*;
use crate::style::Color;
use crate::text::{chars_of, push_char, utf8_len_of, utf8_length};

verus! {

/// The main color schemes.
#[derive(Debug, Clone, Copy, PartialEq, Eq, Structural)]
pub enum ColorScheme {
    Light,
    Dark,
    HighContrast,
}

/// A complete color palette: backgrounds, text, semantic, interactive,
/// border and special colors.
#[derive(Debug, Clone, Copy, PartialEq, Eq, Structural)]
pub struct ColorPalette {
    pub bg_primary: Color,
    pub bg_secondary: Color,
    pub bg_tertiary: Color,
    pub bg_surface: Color,
    pub bg_overlay: Color,
    pub fg_primary: Color,
    pub fg_secondary: Color,
    pub fg_muted: Color,
    pub fg_inverse: Color,
    pub success: Color,
    pub warning: Color,
    pub error: Color,
    pub info: Color,
    pub primary: Color,
    pub secondary: Color,
    pub focus: Color,
    pub focus_bg: Color,
    pub selected: Color,
    pub selected_bg: Color,
    pub hover: Color,
    pub hover_bg: Color,
    pub border_primary: Color,
    pub border_secondary: Color,
    pub border_focus: Color,
    pub border_error: Color,
    pub accent: Color,
    pub highlight: Color,
    pub shadow: Color,
    pub loading: Color,
}

/// The light palette.
pub open spec fn light_palette() -> ColorPalette {
    ColorPalette {
        bg_primary: Color::Rgb(255, 255, 255),
        bg_secondary: Color::Rgb(248, 249, 250),
        bg_tertiary: Color::Rgb(241, 243, 244),
        bg_surface: Color::Rgb(255, 255, 255),
        bg_overlay: Color::Rgb(0, 0, 0),
        fg_primary: Color::Rgb(33, 37, 41),
        fg_secondary: Color::Rgb(108, 117, 125),
        fg_muted: Color::Rgb(173, 181, 189),
        fg_inverse: Color::Rgb(255, 255, 255),
        success: Color::Rgb(40, 167, 69),
        warning: Color::Rgb(255, 193, 7),
        error: Color::Rgb(220, 53, 69),
        info: Color::Rgb(23, 162, 184),
        primary: Color::Rgb(0, 123, 255),
        secondary: Color::Rgb(108, 117, 125),
        focus: Color::Rgb(0, 123, 255),
        focus_bg: Color::Rgb(230, 244, 255),
        selected: Color::Rgb(255, 255, 255),
        selected_bg: Color::Rgb(0, 123, 255),
        hover: Color::Rgb(0, 86, 179),
        hover_bg: Color::Rgb(241, 248, 255),
        border_primary: Color::Rgb(222, 226, 230),
        border_secondary: Color::Rgb(241, 243, 244),
        border_focus: Color::Rgb(0, 123, 255),
        border_error: Color::Rgb(220, 53, 69),
        accent: Color::Rgb(111, 66, 193),
        highlight: Color::Rgb(255, 235, 59),
        shadow: Color::Rgb(0, 0, 0),
        loading: Color::Rgb(0, 123, 255),
    }
}

/// The dark palette.
pub open spec fn dark_palette() -> ColorPalette {
    ColorPalette {
        bg_primary: Color::Rgb(13, 17, 23),
        bg_secondary: Color::Rgb(21, 32, 43),
        bg_tertiary: Color::Rgb(33, 38, 45),
        bg_surface: Color::Rgb(22, 27, 34),
        bg_overlay: Color::Rgb(0, 0, 0),
        fg_primary: Color::Rgb(248, 249, 250),
        fg_secondary: Color::Rgb(173, 186, 199),
        fg_muted: Color::Rgb(110, 118, 129),
        fg_inverse: Color::Rgb(33, 37, 41),
        success: Color::Rgb(46, 160, 67),
        warning: Color::Rgb(187, 128, 9),
        error: Color::Rgb(248, 81, 73),
        info: Color::Rgb(58, 176, 255),
        primary: Color::Rgb(58, 176, 255),
        secondary: Color::Rgb(110, 118, 129),
        focus: Color::Rgb(58, 176, 255),
        focus_bg: Color::Rgb(0, 33, 85),
        selected: Color::Rgb(248, 249, 250),
        selected_bg: Color::Rgb(58, 176, 255),
        hover: Color::Rgb(116, 202, 255),
        hover_bg: Color::Rgb(0, 22, 56),
        border_primary: Color::Rgb(48, 54, 61),
        border_secondary: Color::Rgb(33, 38, 45),
        border_focus: Color::Rgb(58, 176, 255),
        border_error: Color::Rgb(248, 81, 73),
        accent: Color::Rgb(180, 83, 255),
        highlight: Color::Rgb(255, 235, 59),
        shadow: Color::Rgb(0, 0, 0),
        loading: Color::Rgb(58, 176, 255),
    }
}

/// The high contrast palette.
pub open spec fn high_contrast_palette() -> ColorPalette {
    ColorPalette {
        bg_primary: Color::Rgb(0, 0, 0),
        bg_secondary: Color::Rgb(16, 16, 16),
        bg_tertiary: Color::Rgb(32, 32, 32),
        bg_surface: Color::Rgb(0, 0, 0),
        bg_overlay: Color::Rgb(0, 0, 0),
        fg_primary: Color::Rgb(255, 255, 255),
        fg_secondary: Color::Rgb(224, 224, 224),
        fg_muted: Color::Rgb(160, 160, 160),
        fg_inverse: Color::Rgb(0, 0, 0),
        success: Color::Rgb(0, 255, 0),
        warning: Color::Rgb(255, 255, 0),
        error: Color::Rgb(255, 0, 0),
        info: Color::Rgb(0, 255, 255),
        primary: Color::Rgb(255, 255, 255),
        secondary: Color::Rgb(192, 192, 192),
        focus: Color::Rgb(255, 255, 0),
        focus_bg: Color::Rgb(64, 64, 0),
        selected: Color::Rgb(0, 0, 0),
        selected_bg: Color::Rgb(255, 255, 255),
        hover: Color::Rgb(255, 255, 0),
        hover_bg: Color::Rgb(32, 32, 0),
        border_primary: Color::Rgb(255, 255, 255),
        border_secondary: Color::Rgb(128, 128, 128),
        border_focus: Color::Rgb(255, 255, 0),
        border_error: Color::Rgb(255, 0, 0),
        accent: Color::Rgb(255, 0, 255),
        highlight: Color::Rgb(255, 255, 0),
        shadow: Color::Rgb(0, 0, 0),
        loading: Color::Rgb(255, 255, 255),
    }
}

impl ColorPalette {
    /// Light theme color palette.
    pub fn light() -> (r: Self)
        ensures
            r == light_palette(),
    {
        ColorPalette {
            bg_primary: Color::Rgb(255, 255, 255),
            bg_secondary: Color::Rgb(248, 249, 250),
            bg_tertiary: Color::Rgb(241, 243, 244),
            bg_surface: Color::Rgb(255, 255, 255),
            bg_overlay: Color::Rgb(0, 0, 0),
            fg_primary: Color::Rgb(33, 37, 41),
            fg_secondary: Color::Rgb(108, 117, 125),
            fg_muted: Color::Rgb(173, 181, 189),
            fg_inverse: Color::Rgb(255, 255, 255),
            success: Color::Rgb(40, 167, 69),
            warning: Color::Rgb(255, 193, 7),
            error: Color::Rgb(220, 53, 69),
            info: Color::Rgb(23, 162, 184),
            primary: Color::Rgb(0, 123, 255),
            secondary: Color::Rgb(108, 117, 125),
            focus: Color::Rgb(0, 123, 255),
            focus_bg: Color::Rgb(230, 244, 255),
            selected: Color::Rgb(255, 255, 255),
            selected_bg: Color::Rgb(0, 123, 255),
            hover: Color::Rgb(0, 86, 179),
            hover_bg: Color::Rgb(241, 248, 255),
            border_primary: Color::Rgb(222, 226, 230),
            border_secondary: Color::Rgb(241, 243, 244),
            border_focus: Color::Rgb(0, 123, 255),
            border_error: Color::Rgb(220, 53, 69),
            accent: Color::Rgb(111, 66, 193),
            highlight: Color::Rgb(255, 235, 59),
            shadow: Color::Rgb(0, 0, 0),
            loading: Color::Rgb(0, 123, 255),
        }
    }

    /// Dark theme color palette.
    pub fn dark() -> (r: Self)
        ensures
            r == dark_palette(),
    {
        ColorPalette {
            bg_primary: Color::Rgb(13, 17, 23),
            bg_secondary: Color::Rgb(21, 32, 43),
            bg_tertiary: Color::Rgb(33, 38, 45),
            bg_surface: Color::Rgb(22, 27, 34),
            bg_overlay: Color::Rgb(0, 0, 0),
            fg_primary: Color::Rgb(248, 249, 250),
            fg_secondary: Color::Rgb(173, 186, 199),
            fg_muted: Color::Rgb(110, 118, 129),
            fg_inverse: Color::Rgb(33, 37, 41),
            success: Color::Rgb(46, 160, 67),
            warning: Color::Rgb(187, 128, 9),
            error: Color::Rgb(248, 81, 73),
            info: Color::Rgb(58, 176, 255),
            primary: Color::Rgb(58, 176, 255),
            secondary: Color::Rgb(110, 118, 129),
            focus: Color::Rgb(58, 176, 255),
            focus_bg: Color::Rgb(0, 33, 85),
            selected: Color::Rgb(248, 249, 250),
            selected_bg: Color::Rgb(58, 176, 255),
            hover: Color::Rgb(116, 202, 255),
            hover_bg: Color::Rgb(0, 22, 56),
            border_primary: Color::Rgb(48, 54, 61),
            border_secondary: Color::Rgb(33, 38, 45),
            border_focus: Color::Rgb(58, 176, 255),
            border_error: Color::Rgb(248, 81, 73),
            accent: Color::Rgb(180, 83, 255),
            highlight: Color::Rgb(255, 235, 59),
            shadow: Color::Rgb(0, 0, 0),
            loading: Color::Rgb(58, 176, 255),
        }
    }

    /// High contrast palette for accessibility.
    pub fn high_contrast() -> (r: Self)
        ensures
            r == high_contrast_palette(),
    {
        ColorPalette {
            bg_primary: Color::Rgb(0, 0, 0),
            bg_secondary: Color::Rgb(16, 16, 16),
            bg_tertiary: Color::Rgb(32, 32, 32),
            bg_surface: Color::Rgb(0, 0, 0),
            bg_overlay: Color::Rgb(0, 0, 0),
            fg_primary: Color::Rgb(255, 255, 255),
            fg_secondary: Color::Rgb(224, 224, 224),
            fg_muted: Color::Rgb(160, 160, 160),
            fg_inverse: Color::Rgb(0, 0, 0),
            success: Color::Rgb(0, 255, 0),
            warning: Color::Rgb(255, 255, 0),
            error: Color::Rgb(255, 0, 0),
            info: Color::Rgb(0, 255, 255),
            primary: Color::Rgb(255, 255, 255),
            secondary: Color::Rgb(192, 192, 192),
            focus: Color::Rgb(255, 255, 0),
            focus_bg: Color::Rgb(64, 64, 0),
            selected: Color::Rgb(0, 0, 0),
            selected_bg: Color::Rgb(255, 255, 255),
            hover: Color::Rgb(255, 255, 0),
            hover_bg: Color::Rgb(32, 32, 0),
            border_primary: Color::Rgb(255, 255, 255),
            border_secondary: Color::Rgb(128, 128, 128),
            border_focus: Color::Rgb(255, 255, 0),
            border_error: Color::Rgb(255, 0, 0),
            accent: Color::Rgb(255, 0, 255),
            highlight: Color::Rgb(255, 255, 0),
            shadow: Color::Rgb(0, 0, 0),
            loading: Color::Rgb(255, 255, 255),
        }
    }
}

/// The colors of a theme: its palette and the colors used most.
#[derive(Debug, Clone, Copy, PartialEq, Eq, Structural)]
pub struct ThemeColors {
    pub palette: ColorPalette,
    pub background: Color,
    pub foreground: Color,
    pub primary: Color,
    pub secondary: Color,
    pub success: Color,
    pub warning: Color,
    pub error: Color,
    pub info: Color,
    pub focus: Color,
    pub focus_bg: Color,
    pub selected: Color,
    pub selected_bg: Color,
    pub border: Color,
    pub accent: Color,
}

/// The theme colors drawn from a palette.
pub open spec fn theme_colors_of(p: ColorPalette) -> ThemeColors {
    ThemeColors {
        palette: p,
        background: p.bg_primary,
        foreground: p.fg_primary,
        primary: p.primary,
        secondary: p.secondary,
        success: p.success,
        warning: p.warning,
        error: p.error,
        info: p.info,
        focus: p.focus,
        focus_bg: p.focus_bg,
        selected: p.selected,
        selected_bg: p.selected_bg,
        border: p.border_primary,
        accent: p.accent,
    }
}

/// The state of a component, for choosing its colors.
#[derive(Debug, Clone, Copy, PartialEq, Eq, Structural)]
pub enum ComponentState {
    Normal,
    Focused,
    Selected,
    Disabled,
    Error,
    Warning,
    Success,
    Loading,
    Hover,
}

impl Default for ComponentState {
    fn default() -> (r: Self)
        ensures
            r == ComponentState::Normal,
    {
        ComponentState::Normal
    }
}

/// The text color of a component state.
pub open spec fn state_color(t: ThemeColors, state: ComponentState) -> Color {
    match state {
        ComponentState::Normal => t.foreground,
        ComponentState::Focused => t.focus,
        ComponentState::Selected => t.selected,
        ComponentState::Disabled => t.palette.fg_muted,
        ComponentState::Error => t.error,
        ComponentState::Warning => t.warning,
        ComponentState::Success => t.success,
        ComponentState::Loading => t.palette.loading,
        ComponentState::Hover => t.palette.hover,
    }
}

/// The background color of a component state.
pub open spec fn state_bg_color(t: ThemeColors, state: ComponentState) -> Color {
    match state {
        ComponentState::Normal => t.background,
        ComponentState::Focused => t.focus_bg,
        ComponentState::Selected => t.selected_bg,
        ComponentState::Disabled => t.palette.bg_secondary,
        ComponentState::Error => t.palette.bg_primary,
        ComponentState::Warning => t.palette.bg_primary,
        ComponentState::Success => t.palette.bg_primary,
        ComponentState::Loading => t.palette.bg_secondary,
        ComponentState::Hover => t.palette.hover_bg,
    }
}

impl ThemeColors {
    fn from_palette(palette: ColorPalette) -> (r: Self)
        ensures
            r == theme_colors_of(palette),
    {
        ThemeColors {
            palette,
            background: palette.bg_primary,
            foreground: palette.fg_primary,
            primary: palette.primary,
            secondary: palette.secondary,
            success: palette.success,
            warning: palette.warning,
            error: palette.error,
            info: palette.info,
            focus: palette.focus,
            focus_bg: palette.focus_bg,
            selected: palette.selected,
            selected_bg: palette.selected_bg,
            border: palette.border_primary,
            accent: palette.accent,
        }
    }

    /// Light theme colors.
    pub fn light() -> (r: Self)
        ensures
            r == theme_colors_of(light_palette()),
    {
        Self::from_palette(ColorPalette::light())
    }

    /// Dark theme colors.
    pub fn dark() -> (r: Self)
        ensures
            r == theme_colors_of(dark_palette()),
    {
        Self::from_palette(ColorPalette::dark())
    }

    /// High contrast theme colors.
    pub fn high_contrast() -> (r: Self)
        ensures
            r == theme_colors_of(high_contrast_palette()),
    {
        Self::from_palette(ColorPalette::high_contrast())
    }

    /// The text color for a component state.
    pub fn get_state_color(&self, state: ComponentState) -> (r: Color)
        ensures
            r == state_color(*self, state),
    {
        match state {
            ComponentState::Normal => self.foreground,
            ComponentState::Focused => self.focus,
            ComponentState::Selected => self.selected,
            ComponentState::Disabled => self.palette.fg_muted,
            ComponentState::Error => self.error,
            ComponentState::Warning => self.warning,
            ComponentState::Success => self.success,
            ComponentState::Loading => self.palette.loading,
            ComponentState::Hover => self.palette.hover,
        }
    }

    /// The background color for a component state.
    pub fn get_state_bg_color(&self, state: ComponentState) -> (r: Color)
        ensures
            r == state_bg_color(*self, state),
    {
        match state {
            ComponentState::Normal => self.background,
            ComponentState::Focused => self.focus_bg,
            ComponentState::Selected => self.selected_bg,
            ComponentState::Disabled => self.palette.bg_secondary,
            ComponentState::Error => self.palette.bg_primary,
            ComponentState::Warning => self.palette.bg_primary,
            ComponentState::Success => self.palette.bg_primary,
            ComponentState::Loading => self.palette.bg_secondary,
            ComponentState::Hover => self.palette.hover_bg,
        }
    }
}

/// What is left of a text once every leading `#` is removed, as
/// `str::trim_start_matches('#')` gives it.
pub open spec fn strip_hashes(s: Seq<char>) -> Seq<char>
    decreases s.len(),
{
    if s.len() > 0 && s[0] == '#' {
        strip_hashes(s.drop_first())
    } else {
        s
    }
}

/// Whether some prefix of `h` takes exactly `b` bytes in UTF-8, so that a
/// byte slice may start or end there.
pub open spec fn is_boundary(h: Seq<char>, b: nat) -> bool {
    exists|i: int| 0 <= i <= h.len() && #[trigger] utf8_length(h.take(i)) == b
}

/// The number of characters in the prefix of `h` that takes `b` bytes.
pub open spec fn boundary_index(h: Seq<char>, b: nat) -> int {
    choose|i: int| 0 <= i <= h.len() && #[trigger] utf8_length(h.take(i)) == b
}

/// The value of a hex digit, in either case.
pub open spec fn hex_digit_value(c: char) -> Option<u8> {
    if '0' <= c && c <= '9' {
        Some((c as u32 - '0' as u32) as u8)
    } else if 'a' <= c && c <= 'f' {
        Some((c as u32 - 'a' as u32 + 10) as u8)
    } else if 'A' <= c && c <= 'F' {
        Some((c as u32 - 'A' as u32 + 10) as u8)
    } else {
        None
    }
}

/// A byte read from the two-byte text `p` as `u8::from_str_radix(p, 16)`
/// reads it: an optional `+` followed by hex digits. A text of one
/// two-byte character is no number.
pub open spec fn hex_byte(p: Seq<char>) -> Option<u8> {
    if p.len() == 2 {
        if p[0] == '+' {
            hex_digit_value(p[1])
        } else {
            match (hex_digit_value(p[0]), hex_digit_value(p[1])) {
                (Some(a), Some(b)) => Some((16 * a + b) as u8),
                _ => None,
            }
        }
    } else {
        None
    }
}

/// Whether the byte slices that reading a hex color takes of the text fall
/// on character boundaries; where they do not, the reading panics.
pub open spec fn hex_slices_fit(s: Seq<char>) -> bool {
    let h = strip_hashes(s);
    utf8_length(h) == 6 ==> is_boundary(h, 2) && is_boundary(h, 4)
}

/// The color written in hex notation, `#rrggbb` with any number of leading
/// `#`, or the message of the first fault found.
pub open spec fn hex_color(s: Seq<char>) -> Result<Color, Seq<char>> {
    let h = strip_hashes(s);
    if utf8_length(h) != 6 {
        Err("Hex color must be 6 characters"@)
    } else {
        let i = boundary_index(h, 2);
        let j = boundary_index(h, 4);
        match hex_byte(h.subrange(0, i)) {
            None => Err("Invalid red component"@),
            Some(r) => match hex_byte(h.subrange(i, j)) {
                None => Err("Invalid green component"@),
                Some(g) => match hex_byte(h.subrange(j, h.len() as int)) {
                    None => Err("Invalid blue component"@),
                    Some(b) => Ok(Color::Rgb(r, g, b)),
                },
            },
        }
    }
}

/// The lower-case hex digit of a value below 16.
pub open spec fn hex_digit_char(d: u8) -> char {
    if d < 10 {
        ((d + 48) as u8) as char
    } else {
        ((d + 87) as u8) as char
    }
}

/// Two lower-case hex digits of a byte.
pub open spec fn hex_pair(v: u8) -> Seq<char> {
    seq![hex_digit_char(v / 16), hex_digit_char(v % 16)]
}

/// The hex notation of a color: `#rrggbb` for an RGB color, `#000000` for
/// any other.
pub open spec fn color_hex(c: Color) -> Seq<char> {
    match c {
        Color::Rgb(r, g, b) => seq!['#'] + hex_pair(r) + hex_pair(g) + hex_pair(b),
        _ => "#000000"@,
    }
}

proof fn lemma_prefix_bytes_grow(h: Seq<char>, i: int, k: int)
    requires
        0 <= i < k <= h.len(),
    ensures
        utf8_length(h.take(i)) < utf8_length(h.take(k)),
    decreases k - i,
{
    assert(h.take(k).drop_last() =~= h.take(k - 1));
    if i < k - 1 {
        lemma_prefix_bytes_grow(h, i, k - 1);
    }
}

proof fn lemma_boundary_unique(h: Seq<char>, b: nat, i: int)
    requires
        0 <= i <= h.len(),
        utf8_length(h.take(i)) == b,
    ensures
        is_boundary(h, b),
        boundary_index(h, b) == i,
{
    let k = boundary_index(h, b);
    if k < i {
        lemma_prefix_bytes_grow(h, k, i);
    } else if i < k {
        lemma_prefix_bytes_grow(h, i, k);
    }
}

fn hex_digit_of(c: char) -> (r: Option<u8>)
    ensures
        r == hex_digit_value(c),
{
    if '0' <= c && c <= '9' {
        Some((c as u32 - '0' as u32) as u8)
    } else if 'a' <= c && c <= 'f' {
        Some((c as u32 - 'a' as u32 + 10) as u8)
    } else if 'A' <= c && c <= 'F' {
        Some((c as u32 - 'A' as u32 + 10) as u8)
    } else {
        None
    }
}

fn hex_byte_of(cs: &Vec<char>, lo: usize, hi: usize) -> (r: Option<u8>)
    requires
        lo <= hi <= cs@.len(),
    ensures
        r == hex_byte(cs@.subrange(lo as int, hi as int)),
{
    if hi - lo != 2 {
        return None;
    }
    let c0 = cs[lo];
    let c1 = cs[lo + 1];
    if c0 == '+' {
        hex_digit_of(c1)
    } else {
        match (hex_digit_of(c0), hex_digit_of(c1)) {
            (Some(a), Some(b)) => Some(16 * a + b),
            _ => None,
        }
    }
}

/// The number of leading characters of `cs` that take `b` bytes, if any.
fn find_boundary(cs: &Vec<char>, b: u128) -> (r: Option<usize>)
    ensures
        match r {
            Some(i) => i <= cs@.len() && utf8_length(cs@.take(i as int)) == b,
            None => !is_boundary(cs@, b as nat),
        },
{
    let mut i: usize = 0;
    let mut acc: u128 = 0;
    while i < cs.len() && acc < b
        invariant
            i <= cs@.len(),
            acc == utf8_length(cs@.take(i as int)),
            acc <= 4 * i,
            forall|k: int| 0 <= k < i ==> #[trigger] utf8_length(cs@.take(k)) < b,
        decreases cs@.len() - i,
    {
        assert(cs@.take(i + 1).drop_last() =~= cs@.take(i as int));
        let c = cs[i] as u32;
        let w: u128 = if c < 0x80 { 1 } else if c < 0x800 { 2 } else if c < 0x10000 { 3 } else { 4 };
        acc = acc + w;
        i += 1;
    }
    if acc == b {
        Some(i)
    } else {
        proof {
            assert forall|k: int| 0 <= k <= cs@.len() implies #[trigger] utf8_length(cs@.take(k)) != b by {
                if k < i {
                } else if k == i {
                } else {
                    lemma_prefix_bytes_grow(cs@, i as int, k);
                }
            }
        }
        None
    }
}

/// Read a color written in hex notation (`#rrggbb`, any number of leading
/// `#`, digits in either case).
pub fn hex_to_color(hex: &str) -> (r: Result<Color, String>)
    requires
        hex_slices_fit(hex@),
    ensures
        match r {
            Ok(c) => hex_color(hex@) == Ok::<Color, Seq<char>>(c),
            Err(m) => hex_color(hex@) == Err::<Color, Seq<char>>(m@),
        },
{
    let cs = chars_of(hex);
    let mut k: usize = 0;
    assert(cs@.subrange(0, cs@.len() as int) =~= cs@);
    while k < cs.len() && cs[k] == '#'
        invariant
            k <= cs@.len(),
            cs@ == hex@,
            strip_hashes(hex@) == strip_hashes(cs@.subrange(k as int, cs@.len() as int)),
        decreases cs@.len() - k,
    {
        assert(cs@.subrange(k as int, cs@.len() as int).drop_first() =~= cs@.subrange(k + 1, cs@.len() as int));
        k += 1;
    }
    let mut h: Vec<char> = Vec::new();
    let mut t: usize = k;
    while t < cs.len()
        invariant
            k <= t <= cs@.len(),
            h@ == cs@.subrange(k as int, t as int),
        decreases cs@.len() - t,
    {
        h.push(cs[t]);
        assert(h@ =~= cs@.subrange(k as int, t + 1));
        t += 1;
    }
    proof {
        assert(h@ =~= cs@.subrange(k as int, cs@.len() as int));
        assert(strip_hashes(h@) == h@);
    }
    let ghost hv = h@;
    let total = utf8_len_of(&h);
    if total != 6 {
        return Err("Hex color must be 6 characters".to_owned());
    }
    let i = match find_boundary(&h, 2) {
        Some(i) => i,
        None => {
            proof { assert(false); }
            0
        },
    };
    let j = match find_boundary(&h, 4) {
        Some(j) => j,
        None => {
            proof { assert(false); }
            0
        },
    };
    proof {
        lemma_boundary_unique(hv, 2, i as int);
        lemma_boundary_unique(hv, 4, j as int);
        if j < i {
            lemma_prefix_bytes_grow(hv, j as int, i as int);
        }
    }
    let red = match hex_byte_of(&h, 0, i) {
        Some(v) => v,
        None => {
            return Err("Invalid red component".to_owned());
        },
    };
    let green = match hex_byte_of(&h, i, j) {
        Some(v) => v,
        None => {
            return Err("Invalid green component".to_owned());
        },
    };
    let blue = match hex_byte_of(&h, j, h.len()) {
        Some(v) => v,
        None => {
            return Err("Invalid blue component".to_owned());
        },
    };
    Ok(Color::Rgb(red, green, blue))
}

/// Whether every character of a text takes one byte in UTF-8.
pub open spec fn all_ascii(h: Seq<char>) -> bool {
    forall|k: int| 0 <= k < h.len() ==> (#[trigger] h[k] as u32) < 0x80
}

proof fn lemma_ascii_prefix_bytes(h: Seq<char>, i: int)
    requires
        all_ascii(h),
        0 <= i <= h.len(),
    ensures
        utf8_length(h.take(i)) == i,
    decreases i,
{
    if i > 0 {
        assert(h.take(i).drop_last() =~= h.take(i - 1));
        assert((h[i - 1] as u32) < 0x80);
        lemma_ascii_prefix_bytes(h, i - 1);
    }
}

proof fn lemma_hex_digit_round_trip(d: u8)
    requires
        d < 16,
    ensures
        hex_digit_value(hex_digit_char(d)) == Some(d),
        hex_digit_char(d) != '+',
        hex_digit_char(d) != '#',
        (hex_digit_char(d) as u32) < 0x80,
{
}

/// Reading back the hex notation of an RGB color gives the color: the
/// notation takes the form that reading expects, and each pair of digits
/// gives back its byte.
pub proof fn lemma_hex_round_trip(r: u8, g: u8, b: u8)
    ensures
        hex_slices_fit(color_hex(Color::Rgb(r, g, b))),
        hex_color(color_hex(Color::Rgb(r, g, b))) == Ok::<Color, Seq<char>>(Color::Rgb(r, g, b)),
{
    let s = color_hex(Color::Rgb(r, g, b));
    let h = hex_pair(r) + hex_pair(g) + hex_pair(b);
    lemma_hex_digit_round_trip(r / 16);
    lemma_hex_digit_round_trip(r % 16);
    lemma_hex_digit_round_trip(g / 16);
    lemma_hex_digit_round_trip(g % 16);
    lemma_hex_digit_round_trip(b / 16);
    lemma_hex_digit_round_trip(b % 16);
    assert(s.drop_first() =~= h);
    assert(strip_hashes(h) == h);
    assert(strip_hashes(s) == h);
    assert(all_ascii(h));
    lemma_ascii_prefix_bytes(h, 2);
    lemma_ascii_prefix_bytes(h, 4);
    lemma_ascii_prefix_bytes(h, 6);
    assert(h.take(6) =~= h);
    lemma_boundary_unique(h, 2, 2);
    lemma_boundary_unique(h, 4, 4);
    assert(h.subrange(0, 2) =~= hex_pair(r));
    assert(h.subrange(2, 4) =~= hex_pair(g));
    assert(h.subrange(4, 6) =~= hex_pair(b));
    assert(16 * (r / 16) + r % 16 == r);
    assert(16 * (g / 16) + g % 16 == g);
    assert(16 * (b / 16) + b % 16 == b);
}


fn hex_digit_char_of(d: u8) -> (r: char)
    requires
        d < 16,
    ensures
        r == hex_digit_char(d),
{
    if d < 10 {
        (d + 48) as char
    } else {
        (d + 87) as char
    }
}

/// The hex notation of a color: `#rrggbb` in lower case for an RGB color,
/// `#000000` for any other.
pub fn color_to_hex(color: Color) -> (r: String)
    ensures
        r@ == color_hex(color),
{
    match color {
        Color::Rgb(red, green, blue) => {
            let mut s = "#".to_owned();
            proof {
                reveal_strlit("#");
            }
            push_char(&mut s, hex_digit_char_of(red / 16));
            push_char(&mut s, hex_digit_char_of(red % 16));
            push_char(&mut s, hex_digit_char_of(green / 16));
            push_char(&mut s, hex_digit_char_of(green % 16));
            push_char(&mut s, hex_digit_char_of(blue / 16));
            push_char(&mut s, hex_digit_char_of(blue % 16));
            assert(s@ =~= seq!['#'] + hex_pair(red) + hex_pair(green) + hex_pair(blue));
            s
        },
        _ => "#000000".to_owned(),
    }
}

} // verus!
