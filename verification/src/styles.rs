//! Text styles, borders and emphasis: the styles of each theme and how a
//! semantic kind of text, border or interaction state picks its style.

use vstd::prelude::*;
use crate::style::{BorderType, Color, Modifier, Style};

verus! {

/// A text style: modifiers and an optional underline color.
#[derive(Debug, Clone, Copy, PartialEq, Eq, Structural)]
pub struct TextStyle {
    pub modifiers: Modifier,
    pub underline_color: Option<Color>,
}

/// The text style with the given modifier bits and no underline color.
pub open spec fn text_style(bits: u16) -> TextStyle {
    TextStyle { modifiers: Modifier { bits }, underline_color: None }
}

impl TextStyle {
    /// Normal text.
    pub fn normal() -> (r: Self)
        ensures
            r == text_style(0),
    {
        TextStyle { modifiers: Modifier::empty(), underline_color: None }
    }

    /// Bold text.
    pub fn bold() -> (r: Self)
        ensures
            r == text_style(1),
    {
        TextStyle { modifiers: Modifier::bold(), underline_color: None }
    }

    /// Italic text.
    pub fn italic() -> (r: Self)
        ensures
            r == text_style(4),
    {
        TextStyle { modifiers: Modifier::italic(), underline_color: None }
    }

    /// Underlined text.
    pub fn underlined() -> (r: Self)
        ensures
            r == text_style(8),
    {
        TextStyle { modifiers: Modifier::underlined(), underline_color: None }
    }

    /// Dim text.
    pub fn dim() -> (r: Self)
        ensures
            r == text_style(2),
    {
        TextStyle { modifiers: Modifier::dim(), underline_color: None }
    }

    /// Reversed text (inverted colors).
    pub fn reversed() -> (r: Self)
        ensures
            r == text_style(64),
    {
        TextStyle { modifiers: Modifier::reversed(), underline_color: None }
    }

    /// Slowly blinking text.
    pub fn slow_blink() -> (r: Self)
        ensures
            r == text_style(16),
    {
        TextStyle { modifiers: Modifier::slow_blink(), underline_color: None }
    }

    /// Rapidly blinking text.
    pub fn rapid_blink() -> (r: Self)
        ensures
            r == text_style(32),
    {
        TextStyle { modifiers: Modifier::rapid_blink(), underline_color: None }
    }

    /// Hidden text.
    pub fn hidden() -> (r: Self)
        ensures
            r == text_style(128),
    {
        TextStyle { modifiers: Modifier::hidden(), underline_color: None }
    }

    /// Bold italic text.
    pub fn bold_italic() -> (r: Self)
        ensures
            r == text_style(5),
    {
        let m = Modifier::bold().union(Modifier::italic());
        assert(1u16 | 4u16 == 5u16) by (bit_vector);
        TextStyle { modifiers: m, underline_color: None }
    }

    /// Bold underlined text.
    pub fn bold_underlined() -> (r: Self)
        ensures
            r == text_style(9),
    {
        let m = Modifier::bold().union(Modifier::underlined());
        assert(1u16 | 8u16 == 9u16) by (bit_vector);
        TextStyle { modifiers: m, underline_color: None }
    }

    /// Muted text: dim.
    pub fn muted() -> (r: Self)
        ensures
            r == text_style(2),
    {
        TextStyle { modifiers: Modifier::dim(), underline_color: None }
    }

    /// Emphasized text: bold.
    pub fn emphasized() -> (r: Self)
        ensures
            r == text_style(1),
    {
        TextStyle { modifiers: Modifier::bold(), underline_color: None }
    }

    /// The same style with an underline color.
    pub fn with_underline_color(self, color: Color) -> (r: Self)
        ensures
            r == (TextStyle { underline_color: Some(color), ..self }),
    {
        TextStyle { underline_color: Some(color), ..self }
    }

    /// The full style of this text style with optional colors.
    pub fn to_style(&self, fg: Option<Color>, bg: Option<Color>) -> (r: Style)
        ensures
            r == (Style { fg, bg, underline_color: self.underline_color, add_modifier: self.modifiers }),
    {
        Style { fg, bg, underline_color: self.underline_color, add_modifier: self.modifiers }
    }
}

/// Border thickness options.
#[derive(Debug, Clone, Copy, PartialEq, Eq, Structural)]
pub enum BorderThickness {
    /// No border.
    Zero,
    Thin,
    Thick,
    Double,
    Rounded,
}

/// Corner style options.
#[derive(Debug, Clone, Copy, PartialEq, Eq, Structural)]
pub enum CornerStyle {
    Square,
    Rounded,
}

/// A border style: its line, thickness and corners.
#[derive(Debug, Clone, Copy, PartialEq, Eq, Structural)]
pub struct BorderStyle {
    pub border_type: BorderType,
    pub thickness: BorderThickness,
    pub corner_style: CornerStyle,
}

pub open spec fn thin_border() -> BorderStyle {
    BorderStyle { border_type: BorderType::Plain, thickness: BorderThickness::Thin, corner_style: CornerStyle::Square }
}

pub open spec fn thick_border() -> BorderStyle {
    BorderStyle { border_type: BorderType::Thick, thickness: BorderThickness::Thick, corner_style: CornerStyle::Square }
}

pub open spec fn double_border() -> BorderStyle {
    BorderStyle { border_type: BorderType::Double, thickness: BorderThickness::Double, corner_style: CornerStyle::Square }
}

pub open spec fn rounded_border() -> BorderStyle {
    BorderStyle { border_type: BorderType::Rounded, thickness: BorderThickness::Rounded, corner_style: CornerStyle::Rounded }
}

pub open spec fn no_border() -> BorderStyle {
    BorderStyle { border_type: BorderType::Plain, thickness: BorderThickness::Zero, corner_style: CornerStyle::Square }
}

impl BorderStyle {
    /// A thin border.
    pub fn thin() -> (r: Self)
        ensures
            r == thin_border(),
    {
        BorderStyle {
            border_type: BorderType::Plain,
            thickness: BorderThickness::Thin,
            corner_style: CornerStyle::Square,
        }
    }

    /// A thick border.
    pub fn thick() -> (r: Self)
        ensures
            r == thick_border(),
    {
        BorderStyle {
            border_type: BorderType::Thick,
            thickness: BorderThickness::Thick,
            corner_style: CornerStyle::Square,
        }
    }

    /// A double border.
    pub fn double() -> (r: Self)
        ensures
            r == double_border(),
    {
        BorderStyle {
            border_type: BorderType::Double,
            thickness: BorderThickness::Double,
            corner_style: CornerStyle::Square,
        }
    }

    /// A rounded border.
    pub fn rounded() -> (r: Self)
        ensures
            r == rounded_border(),
    {
        BorderStyle {
            border_type: BorderType::Rounded,
            thickness: BorderThickness::Rounded,
            corner_style: CornerStyle::Rounded,
        }
    }

    /// No border.
    pub fn none() -> (r: Self)
        ensures
            r == no_border(),
    {
        BorderStyle {
            border_type: BorderType::Plain,
            thickness: BorderThickness::Zero,
            corner_style: CornerStyle::Square,
        }
    }

    /// The line to draw: none when there is no border.
    pub fn to_border_type(&self) -> (r: Option<BorderType>)
        ensures
            r == (match self.thickness {
                BorderThickness::Zero => None,
                _ => Some(self.border_type),
            }),
    {
        match self.thickness {
            BorderThickness::Zero => None,
            _ => Some(self.border_type),
        }
    }
}

/// The styles of interactive elements in each interaction state.
#[derive(Debug, Clone, Copy, PartialEq, Eq, Structural)]
pub struct HighlightStyle {
    pub focused: TextStyle,
    pub selected: TextStyle,
    pub hover: TextStyle,
    pub active: TextStyle,
    pub disabled: TextStyle,
}

pub open spec fn light_highlight() -> HighlightStyle {
    HighlightStyle {
        focused: text_style(1),
        selected: TextStyle { underline_color: Some(Color::Blue), ..text_style(1) },
        hover: text_style(8),
        active: text_style(5),
        disabled: text_style(2),
    }
}

pub open spec fn dark_highlight() -> HighlightStyle {
    HighlightStyle {
        focused: text_style(1),
        selected: TextStyle { underline_color: Some(Color::Cyan), ..text_style(1) },
        hover: text_style(8),
        active: text_style(5),
        disabled: text_style(2),
    }
}

pub open spec fn high_contrast_highlight() -> HighlightStyle {
    HighlightStyle {
        focused: text_style(9),
        selected: text_style(64),
        hover: text_style(1),
        active: text_style(5),
        disabled: text_style(2),
    }
}

impl HighlightStyle {
    /// Light theme highlight styles.
    pub fn light() -> (r: Self)
        ensures
            r == light_highlight(),
    {
        HighlightStyle {
            focused: TextStyle::bold(),
            selected: TextStyle::bold().with_underline_color(Color::Blue),
            hover: TextStyle::underlined(),
            active: TextStyle::bold_italic(),
            disabled: TextStyle::dim(),
        }
    }

    /// Dark theme highlight styles.
    pub fn dark() -> (r: Self)
        ensures
            r == dark_highlight(),
    {
        HighlightStyle {
            focused: TextStyle::bold(),
            selected: TextStyle::bold().with_underline_color(Color::Cyan),
            hover: TextStyle::underlined(),
            active: TextStyle::bold_italic(),
            disabled: TextStyle::dim(),
        }
    }

    /// High contrast highlight styles.
    pub fn high_contrast() -> (r: Self)
        ensures
            r == high_contrast_highlight(),
    {
        HighlightStyle {
            focused: TextStyle::bold_underlined(),
            selected: TextStyle::reversed(),
            hover: TextStyle::bold(),
            active: TextStyle::bold_italic(),
            disabled: TextStyle::dim(),
        }
    }
}

/// The text styles of a theme, by semantic meaning.
#[derive(Debug, Clone, Copy, PartialEq, Eq, Structural)]
pub struct TextStyleSet {
    pub normal: TextStyle,
    pub bold: TextStyle,
    pub italic: TextStyle,
    pub muted: TextStyle,
    pub emphasized: TextStyle,
    pub title: TextStyle,
    pub subtitle: TextStyle,
    pub caption: TextStyle,
    pub code: TextStyle,
    pub link: TextStyle,
    pub error: TextStyle,
    pub warning: TextStyle,
    pub success: TextStyle,
    pub info: TextStyle,
}

pub open spec fn light_text_styles() -> TextStyleSet {
    TextStyleSet {
        normal: text_style(0),
        bold: text_style(1),
        italic: text_style(4),
        muted: text_style(2),
        emphasized: text_style(1),
        title: text_style(1),
        subtitle: text_style(0),
        caption: text_style(2),
        code: text_style(0),
        link: text_style(8),
        error: text_style(1),
        warning: text_style(1),
        success: text_style(1),
        info: text_style(0),
    }
}

pub open spec fn high_contrast_text_styles() -> TextStyleSet {
    TextStyleSet {
        normal: text_style(0),
        bold: text_style(1),
        italic: text_style(4),
        muted: text_style(2),
        emphasized: text_style(9),
        title: text_style(9),
        subtitle: text_style(1),
        caption: text_style(0),
        code: text_style(64),
        link: text_style(9),
        error: text_style(9),
        warning: text_style(9),
        success: text_style(9),
        info: text_style(1),
    }
}

impl TextStyleSet {
    /// Light theme text styles.
    pub fn light() -> (r: Self)
        ensures
            r == light_text_styles(),
    {
        TextStyleSet {
            normal: TextStyle::normal(),
            bold: TextStyle::bold(),
            italic: TextStyle::italic(),
            muted: TextStyle::dim(),
            emphasized: TextStyle::bold(),
            title: TextStyle::bold(),
            subtitle: TextStyle::normal(),
            caption: TextStyle::dim(),
            code: TextStyle::normal(),
            link: TextStyle::underlined(),
            error: TextStyle::bold(),
            warning: TextStyle::bold(),
            success: TextStyle::bold(),
            info: TextStyle::normal(),
        }
    }

    /// Dark theme text styles, the same as the light ones.
    pub fn dark() -> (r: Self)
        ensures
            r == light_text_styles(),
    {
        TextStyleSet {
            normal: TextStyle::normal(),
            bold: TextStyle::bold(),
            italic: TextStyle::italic(),
            muted: TextStyle::dim(),
            emphasized: TextStyle::bold(),
            title: TextStyle::bold(),
            subtitle: TextStyle::normal(),
            caption: TextStyle::dim(),
            code: TextStyle::normal(),
            link: TextStyle::underlined(),
            error: TextStyle::bold(),
            warning: TextStyle::bold(),
            success: TextStyle::bold(),
            info: TextStyle::normal(),
        }
    }

    /// High contrast text styles.
    pub fn high_contrast() -> (r: Self)
        ensures
            r == high_contrast_text_styles(),
    {
        TextStyleSet {
            normal: TextStyle::normal(),
            bold: TextStyle::bold(),
            italic: TextStyle::italic(),
            muted: TextStyle::dim(),
            emphasized: TextStyle::bold_underlined(),
            title: TextStyle::bold_underlined(),
            subtitle: TextStyle::bold(),
            caption: TextStyle::normal(),
            code: TextStyle::reversed(),
            link: TextStyle::bold_underlined(),
            error: TextStyle::bold_underlined(),
            warning: TextStyle::bold_underlined(),
            success: TextStyle::bold_underlined(),
            info: TextStyle::bold(),
        }
    }
}

/// The border styles of a theme, by semantic meaning.
#[derive(Debug, Clone, Copy, PartialEq, Eq, Structural)]
pub struct BorderStyleSet {
    pub default: BorderStyle,
    pub focus: BorderStyle,
    pub error: BorderStyle,
    pub success: BorderStyle,
    pub warning: BorderStyle,
    pub info: BorderStyle,
    pub subtle: BorderStyle,
    pub prominent: BorderStyle,
}

pub open spec fn light_border_styles() -> BorderStyleSet {
    BorderStyleSet {
        default: thin_border(),
        focus: thick_border(),
        error: thick_border(),
        success: thick_border(),
        warning: thick_border(),
        info: thin_border(),
        subtle: thin_border(),
        prominent: double_border(),
    }
}

pub open spec fn high_contrast_border_styles() -> BorderStyleSet {
    BorderStyleSet {
        default: thick_border(),
        focus: double_border(),
        error: double_border(),
        success: double_border(),
        warning: double_border(),
        info: thick_border(),
        subtle: thin_border(),
        prominent: double_border(),
    }
}

impl BorderStyleSet {
    /// Light theme border styles.
    pub fn light() -> (r: Self)
        ensures
            r == light_border_styles(),
    {
        BorderStyleSet {
            default: BorderStyle::thin(),
            focus: BorderStyle::thick(),
            error: BorderStyle::thick(),
            success: BorderStyle::thick(),
            warning: BorderStyle::thick(),
            info: BorderStyle::thin(),
            subtle: BorderStyle::thin(),
            prominent: BorderStyle::double(),
        }
    }

    /// Dark theme border styles, the same as the light ones.
    pub fn dark() -> (r: Self)
        ensures
            r == light_border_styles(),
    {
        BorderStyleSet {
            default: BorderStyle::thin(),
            focus: BorderStyle::thick(),
            error: BorderStyle::thick(),
            success: BorderStyle::thick(),
            warning: BorderStyle::thick(),
            info: BorderStyle::thin(),
            subtle: BorderStyle::thin(),
            prominent: BorderStyle::double(),
        }
    }

    /// High contrast border styles.
    pub fn high_contrast() -> (r: Self)
        ensures
            r == high_contrast_border_styles(),
    {
        BorderStyleSet {
            default: BorderStyle::thick(),
            focus: BorderStyle::double(),
            error: BorderStyle::double(),
            success: BorderStyle::double(),
            warning: BorderStyle::double(),
            info: BorderStyle::thick(),
            subtle: BorderStyle::thin(),
            prominent: BorderStyle::double(),
        }
    }
}

/// The complete style set of a theme.
#[derive(Debug, Clone, Copy, PartialEq, Eq, Structural)]
pub struct StyleSet {
    pub text: TextStyleSet,
    pub border: BorderStyleSet,
    pub highlight: HighlightStyle,
}

pub open spec fn light_style_set() -> StyleSet {
    StyleSet { text: light_text_styles(), border: light_border_styles(), highlight: light_highlight() }
}

pub open spec fn dark_style_set() -> StyleSet {
    StyleSet { text: light_text_styles(), border: light_border_styles(), highlight: dark_highlight() }
}

pub open spec fn high_contrast_style_set() -> StyleSet {
    StyleSet {
        text: high_contrast_text_styles(),
        border: high_contrast_border_styles(),
        highlight: high_contrast_highlight(),
    }
}

/// Text style kinds, by semantic meaning.
#[derive(Debug, Clone, Copy, PartialEq, Eq, Structural)]
pub enum TextStyleType {
    Normal,
    Bold,
    Italic,
    Muted,
    Emphasized,
    Title,
    Subtitle,
    Caption,
    Code,
    Link,
    Error,
    Warning,
    Success,
    Info,
}

/// Border style kinds, by semantic meaning.
#[derive(Debug, Clone, Copy, PartialEq, Eq, Structural)]
pub enum BorderStyleType {
    Default,
    Focus,
    Error,
    Success,
    Warning,
    Info,
    Subtle,
    Prominent,
}

/// Interaction states.
#[derive(Debug, Clone, Copy, PartialEq, Eq, Structural)]
pub enum HighlightState {
    Focused,
    Selected,
    Hover,
    Active,
    Disabled,
}

pub open spec fn text_style_of(t: TextStyleSet, k: TextStyleType) -> TextStyle {
    match k {
        TextStyleType::Normal => t.normal,
        TextStyleType::Bold => t.bold,
        TextStyleType::Italic => t.italic,
        TextStyleType::Muted => t.muted,
        TextStyleType::Emphasized => t.emphasized,
        TextStyleType::Title => t.title,
        TextStyleType::Subtitle => t.subtitle,
        TextStyleType::Caption => t.caption,
        TextStyleType::Code => t.code,
        TextStyleType::Link => t.link,
        TextStyleType::Error => t.error,
        TextStyleType::Warning => t.warning,
        TextStyleType::Success => t.success,
        TextStyleType::Info => t.info,
    }
}

pub open spec fn border_style_of(b: BorderStyleSet, k: BorderStyleType) -> BorderStyle {
    match k {
        BorderStyleType::Default => b.default,
        BorderStyleType::Focus => b.focus,
        BorderStyleType::Error => b.error,
        BorderStyleType::Success => b.success,
        BorderStyleType::Warning => b.warning,
        BorderStyleType::Info => b.info,
        BorderStyleType::Subtle => b.subtle,
        BorderStyleType::Prominent => b.prominent,
    }
}

pub open spec fn highlight_style_of(h: HighlightStyle, s: HighlightState) -> TextStyle {
    match s {
        HighlightState::Focused => h.focused,
        HighlightState::Selected => h.selected,
        HighlightState::Hover => h.hover,
        HighlightState::Active => h.active,
        HighlightState::Disabled => h.disabled,
    }
}

impl StyleSet {
    /// Light theme style set.
    pub fn light() -> (r: Self)
        ensures
            r == light_style_set(),
    {
        StyleSet { text: TextStyleSet::light(), border: BorderStyleSet::light(), highlight: HighlightStyle::light() }
    }

    /// Dark theme style set.
    pub fn dark() -> (r: Self)
        ensures
            r == dark_style_set(),
    {
        StyleSet { text: TextStyleSet::dark(), border: BorderStyleSet::dark(), highlight: HighlightStyle::dark() }
    }

    /// High contrast style set.
    pub fn high_contrast() -> (r: Self)
        ensures
            r == high_contrast_style_set(),
    {
        StyleSet {
            text: TextStyleSet::high_contrast(),
            border: BorderStyleSet::high_contrast(),
            highlight: HighlightStyle::high_contrast(),
        }
    }

    /// The text style for a semantic kind of text.
    pub fn get_text_style(&self, style_type: TextStyleType) -> (r: TextStyle)
        ensures
            r == text_style_of(self.text, style_type),
    {
        match style_type {
            TextStyleType::Normal => self.text.normal,
            TextStyleType::Bold => self.text.bold,
            TextStyleType::Italic => self.text.italic,
            TextStyleType::Muted => self.text.muted,
            TextStyleType::Emphasized => self.text.emphasized,
            TextStyleType::Title => self.text.title,
            TextStyleType::Subtitle => self.text.subtitle,
            TextStyleType::Caption => self.text.caption,
            TextStyleType::Code => self.text.code,
            TextStyleType::Link => self.text.link,
            TextStyleType::Error => self.text.error,
            TextStyleType::Warning => self.text.warning,
            TextStyleType::Success => self.text.success,
            TextStyleType::Info => self.text.info,
        }
    }

    /// The border style for a semantic kind of border.
    pub fn get_border_style(&self, border_type: BorderStyleType) -> (r: BorderStyle)
        ensures
            r == border_style_of(self.border, border_type),
    {
        match border_type {
            BorderStyleType::Default => self.border.default,
            BorderStyleType::Focus => self.border.focus,
            BorderStyleType::Error => self.border.error,
            BorderStyleType::Success => self.border.success,
            BorderStyleType::Warning => self.border.warning,
            BorderStyleType::Info => self.border.info,
            BorderStyleType::Subtle => self.border.subtle,
            BorderStyleType::Prominent => self.border.prominent,
        }
    }

    /// The text style for an interaction state.
    pub fn get_highlight_style(&self, state: HighlightState) -> (r: TextStyle)
        ensures
            r == highlight_style_of(self.highlight, state),
    {
        match state {
            HighlightState::Focused => self.highlight.focused,
            HighlightState::Selected => self.highlight.selected,
            HighlightState::Hover => self.highlight.hover,
            HighlightState::Active => self.highlight.active,
            HighlightState::Disabled => self.highlight.disabled,
        }
    }
}

} // verus!
