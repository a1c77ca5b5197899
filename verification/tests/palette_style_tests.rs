use semantic_release_tui::button::{Button, ButtonProps};
use semantic_release_tui::component::FocusState;
use semantic_release_tui::colors::{
    color_to_hex, hex_to_color, ColorPalette, ComponentState, ThemeColors,
};
use semantic_release_tui::style::{BorderType, Color, Modifier};
use semantic_release_tui::styles::{
    BorderStyle, BorderStyleType, BorderThickness, CornerStyle, HighlightState, HighlightStyle, StyleSet,
    TextStyle, TextStyleType,
};
use semantic_release_tui::theme::{available_themes, get_theme_by_name, AppTheme, ThemeVariant};

#[test]
fn test_color_palettes() {
    let light = ColorPalette::light();
    let dark = ColorPalette::dark();
    let high_contrast = ColorPalette::high_contrast();

    assert_ne!(light.bg_primary, dark.bg_primary);
    assert_ne!(dark.bg_primary, high_contrast.bg_primary);

    assert_eq!(high_contrast.bg_primary, Color::Rgb(0, 0, 0));
    assert_eq!(high_contrast.fg_primary, Color::Rgb(255, 255, 255));
}

#[test]
fn test_theme_colors() {
    let light = ThemeColors::light();
    let dark = ThemeColors::dark();

    assert_eq!(light.get_state_color(ComponentState::Normal), light.foreground);
    assert_eq!(light.get_state_color(ComponentState::Error), light.error);

    assert_eq!(dark.get_state_bg_color(ComponentState::Focused), dark.focus_bg);
    assert_eq!(dark.get_state_bg_color(ComponentState::Selected), dark.selected_bg);
}

#[test]
fn test_hex_conversion() {
    let color = hex_to_color("#FF0000").unwrap();
    assert_eq!(color, Color::Rgb(255, 0, 0));

    let hex = color_to_hex(Color::Rgb(255, 0, 0));
    assert_eq!(hex, "#ff0000");

    assert!(hex_to_color("#invalid").is_err());
    assert!(hex_to_color("#FF").is_err());
}

#[test]
fn hex_reading_edge_cases() {
    assert_eq!(hex_to_color("1a2B3c"), Ok(Color::Rgb(0x1a, 0x2b, 0x3c)));
    assert_eq!(hex_to_color("##00ff00"), Ok(Color::Rgb(0, 255, 0)));
    assert_eq!(hex_to_color("#+F0000"), Ok(Color::Rgb(15, 0, 0)));
    assert_eq!(hex_to_color("#FF"), Err("Hex color must be 6 characters".to_string()));
    assert_eq!(hex_to_color("#GG0000"), Err("Invalid red component".to_string()));
    assert_eq!(hex_to_color("#00GG00"), Err("Invalid green component".to_string()));
    assert_eq!(hex_to_color("#0000GG"), Err("Invalid blue component".to_string()));
    assert_eq!(hex_to_color("FFé12"), Err("Invalid green component".to_string()));
}

#[test]
fn hex_writing_and_round_trip() {
    assert_eq!(color_to_hex(Color::Rgb(0, 10, 171)), "#000aab");
    assert_eq!(color_to_hex(Color::Red), "#000000");
    for c in [Color::Rgb(1, 2, 3), Color::Rgb(255, 128, 0), Color::Rgb(16, 15, 160)] {
        assert_eq!(hex_to_color(&color_to_hex(c)), Ok(c));
    }
}

#[test]
fn state_colors_cover_every_state() {
    let hc = ThemeColors::high_contrast();
    assert_eq!(hc.get_state_color(ComponentState::Disabled), hc.palette.fg_muted);
    assert_eq!(hc.get_state_color(ComponentState::Loading), Color::Rgb(255, 255, 255));
    assert_eq!(hc.get_state_bg_color(ComponentState::Hover), Color::Rgb(32, 32, 0));
    assert_eq!(hc.get_state_bg_color(ComponentState::default()), hc.background);
}

#[test]
fn test_text_styles() {
    let normal = TextStyle::normal();
    assert_eq!(normal.modifiers, Modifier::empty());

    let bold = TextStyle::bold();
    assert!(bold.modifiers.contains(Modifier::bold()));

    let bold_italic = TextStyle::bold_italic();
    assert!(bold_italic.modifiers.contains(Modifier::bold()));
    assert!(bold_italic.modifiers.contains(Modifier::italic()));
}

#[test]
fn test_border_styles() {
    let thin = BorderStyle::thin();
    assert_eq!(thin.thickness, BorderThickness::Thin);
    assert_eq!(thin.corner_style, CornerStyle::Square);

    let rounded = BorderStyle::rounded();
    assert_eq!(rounded.thickness, BorderThickness::Rounded);
    assert_eq!(rounded.corner_style, CornerStyle::Rounded);

    let none = BorderStyle::none();
    assert_eq!(none.thickness, BorderThickness::Zero);
    assert!(none.to_border_type().is_none());
    assert_eq!(BorderStyle::double().to_border_type(), Some(BorderType::Double));
}

#[test]
fn test_style_sets() {
    let light = StyleSet::light();
    let dark = StyleSet::dark();
    let high_contrast = StyleSet::high_contrast();

    assert_eq!(high_contrast.text.emphasized.modifiers, Modifier::bold().union(Modifier::underlined()));
    assert_eq!(light.text.emphasized.modifiers, Modifier::bold());

    let title_style = light.get_text_style(TextStyleType::Title);
    assert!(title_style.modifiers.contains(Modifier::bold()));

    let focus_border = dark.get_border_style(BorderStyleType::Focus);
    assert_eq!(focus_border.thickness, BorderThickness::Thick);
}

#[test]
fn test_highlight_styles() {
    let light_highlight = HighlightStyle::light();
    let _dark_highlight = HighlightStyle::dark();
    let hc_highlight = HighlightStyle::high_contrast();

    assert_eq!(hc_highlight.selected.modifiers, Modifier::reversed());
    assert!(light_highlight.selected.modifiers.contains(Modifier::bold()));

    assert_eq!(light_highlight.disabled.modifiers, Modifier::dim());
    assert_eq!(hc_highlight.disabled.modifiers, Modifier::dim());
    assert_eq!(StyleSet::dark().get_highlight_style(HighlightState::Selected).underline_color, Some(Color::Cyan));
}

#[test]
fn test_style_conversion() {
    let text_style = TextStyle::bold();
    let style = text_style.to_style(Some(Color::Red), Some(Color::Blue));

    assert_eq!(style.fg, Some(Color::Red));
    assert_eq!(style.bg, Some(Color::Blue));
    assert!(style.add_modifier.contains(Modifier::bold()));
}

#[test]
fn test_theme_creation() {
    let light = AppTheme::light();
    assert_eq!(light.variant, ThemeVariant::Light);
    assert_eq!(light.name, "Light");

    let dark = AppTheme::dark();
    assert_eq!(dark.variant, ThemeVariant::Dark);
    assert_eq!(dark.name, "Dark");

    let high_contrast = AppTheme::high_contrast();
    assert_eq!(high_contrast.variant, ThemeVariant::HighContrast);
    assert_eq!(high_contrast.name, "High Contrast");
}

#[test]
fn test_theme_styles() {
    let theme = AppTheme::dark();

    let primary = theme.primary_style();
    assert_eq!(primary.fg, Some(theme.colors.primary));

    let error = theme.error_style();
    assert_eq!(error.fg, Some(theme.colors.error));
    assert_eq!(error.add_modifier, Modifier::bold());
    let focused = theme.focused_style();
    assert_eq!(focused.bg, Some(theme.colors.focus_bg));
}

#[test]
fn test_available_themes() {
    let themes = available_themes();
    assert_eq!(themes.len(), 3);

    let names: Vec<String> = themes.iter().map(|t| t.name.clone()).collect();
    assert!(names.contains(&"Light".to_string()));
    assert!(names.contains(&"Dark".to_string()));
    assert!(names.contains(&"High Contrast".to_string()));
}

#[test]
fn test_get_theme_by_name() {
    assert!(get_theme_by_name("light").is_some());
    assert!(get_theme_by_name("dark").is_some());
    assert!(get_theme_by_name("high_contrast").is_some());
    assert!(get_theme_by_name("high-contrast").is_some());
    assert!(get_theme_by_name("nonexistent").is_none());
    assert_eq!(get_theme_by_name("DARK").unwrap().variant, ThemeVariant::Dark);
}

#[test]
fn theme_from_variant_takes_light_for_custom() {
    assert_eq!(AppTheme::from_variant(ThemeVariant::Custom(7)).variant, ThemeVariant::Light);
    assert_eq!(*AppTheme::from_variant(ThemeVariant::HighContrast).variant(), ThemeVariant::HighContrast);
    assert_eq!(AppTheme::default().name, "Dark");
}

#[test]
fn button_styles_follow_the_theme() {
    let dark = AppTheme::dark();
    let button = Button::new(ButtonProps::default());
    let (text, border) = button.get_button_style_with_theme(None);
    assert_eq!(text.fg, Some(dark.colors.foreground));
    assert_eq!(text.bg, Some(dark.colors.primary));
    assert_eq!(border.fg, Some(dark.colors.border));
    assert_eq!(border.bg, None);

    let light = AppTheme::light();
    let mut focused = Button::new(ButtonProps::default());
    focused.set_focus_state(FocusState::Focused);
    let (text, border) = focused.get_button_style_with_theme(Some(&light));
    assert_eq!(text.fg, Some(light.colors.focus));
    assert_eq!(text.bg, Some(light.colors.focus_bg));
    assert_eq!(border.fg, Some(light.colors.focus));

    let disabled = Button::new(ButtonProps::default()).disabled(true);
    let (text, _) = disabled.get_button_style_with_theme(Some(&light));
    assert_eq!(text.fg, Some(light.colors.palette.fg_muted));
    assert_eq!(text.bg, Some(light.colors.palette.bg_secondary));
}

#[test]
fn button_dimensions_follow_size_and_text() {
    let button = Button::new(ButtonProps::default());
    assert_eq!(button.get_button_dimensions(), Some((10, 3)));
}
