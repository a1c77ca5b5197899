use semantic_release_tui::colors::ThemeColors;
use semantic_release_tui::dialogs::{confirmation_styles, modal_styles};
use semantic_release_tui::style::CellStyle;

#[test]
fn destructive_confirmation_uses_the_error_color() {
    let c = ThemeColors::dark();
    let s = confirmation_styles(true, true, &c);
    assert_eq!(s.border, CellStyle { fg: Some(c.error), bg: None, bold: false });
    assert_eq!(s.confirm, CellStyle { fg: Some(c.background), bg: Some(c.error), bold: true });
    assert_eq!(s.cancel, CellStyle { fg: Some(c.foreground), bg: None, bold: false });
    assert_eq!(s.hint, CellStyle { fg: Some(c.info), bg: None, bold: false });
}

#[test]
fn plain_confirmation_with_cancel_selected() {
    let c = ThemeColors::dark();
    let s = confirmation_styles(false, false, &c);
    assert_eq!(s.border, CellStyle { fg: Some(c.focus), bg: None, bold: false });
    assert_eq!(s.confirm, CellStyle { fg: Some(c.foreground), bg: None, bold: false });
    assert_eq!(s.cancel, CellStyle { fg: Some(c.background), bg: Some(c.info), bold: true });
    assert_eq!(s.body, CellStyle { fg: Some(c.foreground), bg: Some(c.background), bold: false });
}

#[test]
fn modal_border_uses_the_focus_color() {
    let c = ThemeColors::light();
    let s = modal_styles(&c);
    assert_eq!(s.border, CellStyle { fg: Some(c.focus), bg: None, bold: false });
    assert_eq!(s.hint, CellStyle { fg: Some(c.info), bg: None, bold: false });
}
