//! Themes: their variants and names, the complete application theme with
//! its colors, styles, layout and animations, and the styles that
//! components take from it.

use vstd::prelude::*;
use vstd::string::*;
use crate::animations::{
    default_loading, default_transition, minimal_loading, minimal_transition, AnimationConfig,
};
use crate::colors::{dark_palette, high_contrast_palette, light_palette, theme_colors_of, ThemeColors};
use crate::layout::{
    accessibility_constants, comfortable_spacing, default_constants, default_spacing, LayoutStyle, LayoutTheme,
};
use crate::style::Style;
use crate::styles::{dark_style_set, high_contrast_style_set, light_style_set, StyleSet};
use crate::text::{decimal, decimal_text, lowercase, str_eq, to_lowercase};

verus! {

/// The variant of a theme.
#[derive(Debug, Clone, Copy, PartialEq, Eq, Hash, Structural)]
pub enum ThemeVariant {
    Light,
    Dark,
    HighContrast,
    /// A custom theme, by its number.
    Custom(u32),
}

/// The name shown for a theme variant.
pub open spec fn variant_name(v: ThemeVariant) -> Seq<char> {
    match v {
        ThemeVariant::Light => "Light"@,
        ThemeVariant::Dark => "Dark"@,
        ThemeVariant::HighContrast => "High Contrast"@,
        ThemeVariant::Custom(id) => "Custom "@ + decimal(id as nat),
    }
}

impl Default for ThemeVariant {
    fn default() -> (r: Self)
        ensures
            r == ThemeVariant::Dark,
    {
        ThemeVariant::Dark
    }
}

impl ThemeVariant {
    /// The name shown for the variant.
    pub fn to_string(&self) -> (r: String)
        ensures
            r@ == variant_name(*self),
    {
        match self {
            ThemeVariant::Light => "Light".to_owned(),
            ThemeVariant::Dark => "Dark".to_owned(),
            ThemeVariant::HighContrast => "High Contrast".to_owned(),
            ThemeVariant::Custom(id) => {
                let mut s = "Custom ".to_owned();
                let n = decimal_text(*id as u64);
                s.append(n.as_str());
                s
            },
        }
    }
}

/// The default animation configuration.
pub open spec fn default_animations() -> AnimationConfig {
    AnimationConfig {
        enabled: true,
        duration_fast: 150,
        duration_normal: 300,
        duration_slow: 500,
        loading_indicators: default_loading(),
        transitions: default_transition(),
    }
}

/// The minimal animation configuration.
pub open spec fn minimal_animations() -> AnimationConfig {
    AnimationConfig {
        enabled: false,
        duration_fast: 50,
        duration_normal: 100,
        duration_slow: 200,
        loading_indicators: minimal_loading(),
        transitions: minimal_transition(),
    }
}

/// The default layout theme.
pub open spec fn default_layout() -> LayoutTheme {
    LayoutTheme { spacing: default_spacing(), constants: default_constants(), layout_style: LayoutStyle::Default }
}

/// The layout theme for accessibility.
pub open spec fn accessibility_layout() -> LayoutTheme {
    LayoutTheme {
        spacing: comfortable_spacing(),
        constants: accessibility_constants(),
        layout_style: LayoutStyle::Accessibility,
    }
}

/// The complete theme of the application.
#[derive(Debug)]
pub struct AppTheme {
    pub variant: ThemeVariant,
    pub colors: ThemeColors,
    pub styles: StyleSet,
    pub layout: LayoutTheme,
    pub animations: AnimationConfig,
    pub name: String,
    pub description: String,
}

impl Clone for AppTheme {
    fn clone(&self) -> (r: Self)
        ensures
            r == *self,
    {
        AppTheme {
            variant: self.variant,
            colors: self.colors,
            styles: self.styles,
            layout: self.layout,
            animations: self.animations,
            name: self.name.clone(),
            description: self.description.clone(),
        }
    }
}

/// Whether a theme is the light theme.
pub open spec fn is_light_theme(t: AppTheme) -> bool {
    &&& t.variant == ThemeVariant::Light
    &&& t.colors == theme_colors_of(light_palette())
    &&& t.styles == light_style_set()
    &&& t.layout == default_layout()
    &&& t.animations == default_animations()
    &&& t.name@ == "Light"@
    &&& t.description@ == "Clean light theme for daytime use"@
}

/// Whether a theme is the dark theme.
pub open spec fn is_dark_theme(t: AppTheme) -> bool {
    &&& t.variant == ThemeVariant::Dark
    &&& t.colors == theme_colors_of(dark_palette())
    &&& t.styles == dark_style_set()
    &&& t.layout == default_layout()
    &&& t.animations == default_animations()
    &&& t.name@ == "Dark"@
    &&& t.description@ == "Professional dark theme for extended use"@
}

/// Whether a theme is the high contrast theme.
pub open spec fn is_high_contrast_theme(t: AppTheme) -> bool {
    &&& t.variant == ThemeVariant::HighContrast
    &&& t.colors == theme_colors_of(high_contrast_palette())
    &&& t.styles == high_contrast_style_set()
    &&& t.layout == accessibility_layout()
    &&& t.animations == minimal_animations()
    &&& t.name@ == "High Contrast"@
    &&& t.description@ == "High contrast theme for accessibility"@
}

/// The preset theme of a variant: a custom variant takes the light theme.
pub open spec fn is_theme_of_variant(t: AppTheme, v: ThemeVariant) -> bool {
    match v {
        ThemeVariant::Light => is_light_theme(t),
        ThemeVariant::Dark => is_dark_theme(t),
        ThemeVariant::HighContrast => is_high_contrast_theme(t),
        ThemeVariant::Custom(_) => is_light_theme(t),
    }
}

/// A style with a foreground color and modifiers.
pub open spec fn fg_style(fg: crate::style::Color, m: crate::style::Modifier) -> Style {
    Style { fg: Some(fg), bg: None, underline_color: None, add_modifier: m }
}

/// A style with foreground and background colors and modifiers.
pub open spec fn fg_bg_style(fg: crate::style::Color, bg: crate::style::Color, m: crate::style::Modifier) -> Style {
    Style { fg: Some(fg), bg: Some(bg), underline_color: None, add_modifier: m }
}

impl AppTheme {
    /// The light theme.
    pub fn light() -> (r: Self)
        ensures
            is_light_theme(r),
    {
        let r = AppTheme {
            variant: ThemeVariant::Light,
            colors: ThemeColors::light(),
            styles: StyleSet::light(),
            layout: LayoutTheme::default(),
            animations: AnimationConfig::default(),
            name: "Light".to_owned(),
            description: "Clean light theme for daytime use".to_owned(),
        };
        r
    }

    /// The dark theme.
    pub fn dark() -> (r: Self)
        ensures
            is_dark_theme(r),
    {
        AppTheme {
            variant: ThemeVariant::Dark,
            colors: ThemeColors::dark(),
            styles: StyleSet::dark(),
            layout: LayoutTheme::default(),
            animations: AnimationConfig::default(),
            name: "Dark".to_owned(),
            description: "Professional dark theme for extended use".to_owned(),
        }
    }

    /// The high contrast theme, for accessibility.
    pub fn high_contrast() -> (r: Self)
        ensures
            is_high_contrast_theme(r),
    {
        AppTheme {
            variant: ThemeVariant::HighContrast,
            colors: ThemeColors::high_contrast(),
            styles: StyleSet::high_contrast(),
            layout: LayoutTheme::accessibility(),
            animations: AnimationConfig::minimal(),
            name: "High Contrast".to_owned(),
            description: "High contrast theme for accessibility".to_owned(),
        }
    }

    /// The primary style: primary color, normal text.
    pub fn primary_style(&self) -> (r: Style)
        ensures
            r == fg_style(self.colors.primary, self.styles.text.normal.modifiers),
    {
        Style { fg: Some(self.colors.primary), bg: None, underline_color: None, add_modifier: self.styles.text.normal.modifiers }
    }

    /// The secondary style: secondary color, muted text.
    pub fn secondary_style(&self) -> (r: Style)
        ensures
            r == fg_style(self.colors.secondary, self.styles.text.muted.modifiers),
    {
        Style { fg: Some(self.colors.secondary), bg: None, underline_color: None, add_modifier: self.styles.text.muted.modifiers }
    }

    /// The success style: success color, normal text.
    pub fn success_style(&self) -> (r: Style)
        ensures
            r == fg_style(self.colors.success, self.styles.text.normal.modifiers),
    {
        Style { fg: Some(self.colors.success), bg: None, underline_color: None, add_modifier: self.styles.text.normal.modifiers }
    }

    /// The warning style: warning color, bold text.
    pub fn warning_style(&self) -> (r: Style)
        ensures
            r == fg_style(self.colors.warning, self.styles.text.bold.modifiers),
    {
        Style { fg: Some(self.colors.warning), bg: None, underline_color: None, add_modifier: self.styles.text.bold.modifiers }
    }

    /// The error style: error color, bold text.
    pub fn error_style(&self) -> (r: Style)
        ensures
            r == fg_style(self.colors.error, self.styles.text.bold.modifiers),
    {
        Style { fg: Some(self.colors.error), bg: None, underline_color: None, add_modifier: self.styles.text.bold.modifiers }
    }

    /// The focused style: focus colors and the focused highlight.
    pub fn focused_style(&self) -> (r: Style)
        ensures
            r == fg_bg_style(self.colors.focus, self.colors.focus_bg, self.styles.highlight.focused.modifiers),
    {
        Style {
            fg: Some(self.colors.focus),
            bg: Some(self.colors.focus_bg),
            underline_color: None,
            add_modifier: self.styles.highlight.focused.modifiers,
        }
    }

    /// The selected style: selection colors and the selected highlight.
    pub fn selected_style(&self) -> (r: Style)
        ensures
            r == fg_bg_style(self.colors.selected, self.colors.selected_bg, self.styles.highlight.selected.modifiers),
    {
        Style {
            fg: Some(self.colors.selected),
            bg: Some(self.colors.selected_bg),
            underline_color: None,
            add_modifier: self.styles.highlight.selected.modifiers,
        }
    }

    /// The preset theme of a variant; a custom variant gives the light theme.
    pub fn from_variant(variant: ThemeVariant) -> (r: Self)
        ensures
            is_theme_of_variant(r, variant),
    {
        match variant {
            ThemeVariant::Light => Self::light(),
            ThemeVariant::Dark => Self::dark(),
            ThemeVariant::HighContrast => Self::high_contrast(),
            ThemeVariant::Custom(_) => Self::light(),
        }
    }

    /// The variant of the theme.
    pub fn variant(&self) -> (r: &ThemeVariant)
        ensures
            *r == self.variant,
    {
        &self.variant
    }

    /// The dark theme, the default.
    pub fn default() -> (r: Self)
        ensures
            is_dark_theme(r),
    {
        Self::dark()
    }
}

/// All preset themes: light, dark and high contrast.
pub fn available_themes() -> (r: Vec<AppTheme>)
    ensures
        r@.len() == 3,
        is_light_theme(r@[0]),
        is_dark_theme(r@[1]),
        is_high_contrast_theme(r@[2]),
{
    let mut v: Vec<AppTheme> = Vec::new();
    v.push(AppTheme::light());
    v.push(AppTheme::dark());
    v.push(AppTheme::high_contrast());
    v
}

/// The preset theme named, in any case: `light`, `dark`, and
/// `high_contrast` or `high-contrast`.
pub fn get_theme_by_name(name: &str) -> (r: Option<AppTheme>)
    ensures
        lowercase(name@) == "light"@ ==> r is Some && is_light_theme(r->0),
        lowercase(name@) == "dark"@ ==> r is Some && is_dark_theme(r->0),
        lowercase(name@) == "high_contrast"@ || lowercase(name@) == "high-contrast"@ ==> r is Some
            && is_high_contrast_theme(r->0),
        r is Some <==> (lowercase(name@) == "light"@ || lowercase(name@) == "dark"@
            || lowercase(name@) == "high_contrast"@ || lowercase(name@) == "high-contrast"@),
{
    let lower = to_lowercase(name);
    proof {
        reveal_strlit("light");
        reveal_strlit("dark");
        reveal_strlit("high_contrast");
        reveal_strlit("high-contrast");
        assert("light"@.len() == 5 && "dark"@.len() == 4 && "high_contrast"@.len() == 13);
        assert("high-contrast"@.len() == 13 && "high_contrast"@[4] != "high-contrast"@[4]);
    }
    if str_eq(lower.as_str(), "light") {
        Some(AppTheme::light())
    } else if str_eq(lower.as_str(), "dark") {
        Some(AppTheme::dark())
    } else if str_eq(lower.as_str(), "high_contrast") || str_eq(lower.as_str(), "high-contrast") {
        Some(AppTheme::high_contrast())
    } else {
        None
    }
}

} // verus!
