use semantic_release_tui::placement::Area;
use semantic_release_tui::button::{Button, ButtonProps};
use semantic_release_tui::checkbox::{Checkbox, CheckboxGroup, CheckboxProps, CheckboxValue};
use semantic_release_tui::component::{ComponentEvent, ComponentId, FocusState, ValidationState};
use semantic_release_tui::dialogs::{
    Confirmation, ConfirmationProps, ConfirmationResult, ConfirmationType, Modal, ModalProps, ModalSize,
};
use semantic_release_tui::keys::{KeyCode, KeyEvent, KeyModifiers};
use semantic_release_tui::radio::{Radio, RadioGroupManager, RadioOption, RadioProps};
use semantic_release_tui::select::{Select, SelectOption, SelectProps};
use semantic_release_tui::status_bar::{ProgressInfo, StatusBar, StatusBarProps, StatusLevel, StatusMessage};
use semantic_release_tui::text_input::{TextInput, TextInputProps};
use semantic_release_tui::tui::{route_input, TuiApplication, UiAction, UiEvent, UiState};

fn key(code: KeyCode) -> KeyEvent {
    KeyEvent::new(code, KeyModifiers::empty())
}

#[test]
fn checkbox_values_and_symbols() {
    assert_eq!(CheckboxValue::Unchecked.to_symbol(), "☐");
    assert_eq!(CheckboxValue::Checked.to_char(), '☑');
    assert_eq!(CheckboxValue::Indeterminate.to_symbol(), "☒");
    assert_eq!(CheckboxValue::Unchecked.toggle(), CheckboxValue::Checked);
    assert_eq!(CheckboxValue::Checked.toggle(), CheckboxValue::Unchecked);
}

#[test]
fn checkbox_keys_need_focus() {
    let mut cb = Checkbox::new(CheckboxProps::default()).with_label("Accept");
    assert!(cb.handle_key(key(KeyCode::Char(' '))).is_empty());
    assert!(cb.is_unchecked());
    cb.set_focus_state(FocusState::Focused);
    let events = cb.handle_key(key(KeyCode::Char(' ')));
    assert!(cb.is_checked());
    assert!(!events.is_empty());
    cb.handle_key(key(KeyCode::Char('n')));
    assert!(cb.is_unchecked());
    cb.handle_key(key(KeyCode::Char('y')));
    assert!(cb.to_bool());
}

#[test]
fn checkbox_required_and_labels() {
    let mut cb = Checkbox::new(CheckboxProps::default()).with_label("Terms").required(true).with_group("g");
    cb.set_value(CheckboxValue::Unchecked);
    assert!(cb.is_valid());
    cb.check();
    cb.uncheck();
    assert!(!cb.is_valid());
    assert_eq!(cb.validation_message(), Some("This field is required"));
    cb.check();
    assert!(cb.is_valid());
    assert_eq!(cb.group(), Some("g"));
    assert!(cb.label_with_indicators().starts_with("Terms *"));
    assert!(cb.label_with_indicators().ends_with(" [g]"));
}

#[test]
fn checkbox_group_toggles_by_id() {
    let mut group = CheckboxGroup::new(true);
    let mut a = CheckboxProps::default();
    a.id = ComponentId::new("a");
    let mut b = CheckboxProps::default();
    b.id = ComponentId::new("b");
    group.add_checkbox(Checkbox::new(a));
    group.add_checkbox(Checkbox::new(b));
    assert!(group.toggle_checkbox(&ComponentId::new("b")));
    assert!(!group.toggle_checkbox(&ComponentId::new("zzz")));
    assert_eq!(group.get_checked_count(), 1);
    group.check_all();
    assert_eq!(group.get_checked_values().len(), 2);
    group.clear_all();
    assert_eq!(group.get_checked_count(), 0);
}

#[test]
fn radio_selection_and_manager() {
    let options = vec![RadioOption::new("a", "Alpha"), RadioOption::new("b", "Beta").disabled(), RadioOption::new("c", "Gamma")];
    let mut radio = Radio::new(RadioProps::default()).with_options(options).with_group_name("grp");
    assert!(radio.select_value("a"));
    assert_eq!(radio.selected_value(), Some("a"));
    assert!(!radio.select_value("b"));
    assert!(!radio.select_value("missing"));
    assert!(radio.is_selected("a"));
    radio.clear_selection();
    assert_eq!(radio.selected_value(), None);
    assert_eq!(radio.group_name(), "grp");

    let mut manager = RadioGroupManager::new();
    manager.set_selection("g1", "x");
    assert_eq!(manager.get_selection("g1"), Some("x"));
    manager.clear_selection("g1");
    assert_eq!(manager.get_selection("g1"), None);
}

#[test]
fn select_multi_selection() {
    let options = vec![SelectOption::new("1", "One"), SelectOption::new("2", "Two"), SelectOption::new("3", "Three")];
    let mut select = Select::new(SelectProps::default()).with_options(options).multi_select(true).max_selections(2);
    assert!(select.add_selection("1".to_string()));
    assert!(select.add_selection("2".to_string()));
    assert!(!select.add_selection("3".to_string()));
    assert_eq!(select.selected_values(), vec!["1".to_string(), "2".to_string()]);
    assert!(select.remove_selection("1"));
    assert!(select.toggle_selection("3".to_string()));
    assert_eq!(select.selected_values(), vec!["2".to_string(), "3".to_string()]);
    select.clear_selections();
    assert!(select.selected_values().is_empty());
}

#[test]
fn text_input_validation_uses_the_pattern() {
    let mut input = TextInput::new(TextInputProps::default()).with_validation_pattern("^[0-9]+$");
    input.set_text("123");
    assert!(input.is_valid());
    input.set_text("12a");
    assert!(!input.is_valid());
    assert_eq!(input.validation_message(), Some("Invalid format"));
    assert_eq!(input.text(), "12a");
    assert_eq!(input.char_count(), 3);
}

#[test]
fn text_input_bad_pattern_accepts_text() {
    let mut input = TextInput::new(TextInputProps::default()).with_validation_pattern("(");
    input.set_text("anything");
    assert!(input.is_valid());
}

#[test]
fn text_input_required_and_length() {
    let mut input = TextInput::new(TextInputProps::default()).required(true).max_length(3);
    input.set_text("   ");
    assert_eq!(input.validation_message(), Some("This field is required"));
    input.set_text("abcd");
    assert_eq!(input.validation_message(), Some("Text exceeds maximum length of 3"));
    input.set_text("ab");
    assert!(input.is_valid());
}

#[test]
fn text_input_typing_and_enter() {
    let mut input = TextInput::new(TextInputProps::default());
    assert!(input.is_empty());
    assert!(input.handle_key_event(key(KeyCode::Char('h'))));
    assert!(input.handle_key_event(key(KeyCode::Char('i'))));
    assert_eq!(input.text(), "hi");
    assert!(!input.handle_key_event(key(KeyCode::Enter)));
    assert!(!input.handle_key_event(key(KeyCode::Esc)));
    assert!(input.handle_key_event(key(KeyCode::Backspace)));
    assert_eq!(input.text(), "h");
    assert_eq!(input.line_count(), 1);
    let mut multi = TextInput::new(TextInputProps::default()).multiline(true).with_initial_value("a");
    multi.handle_key_event(key(KeyCode::Enter));
    assert_eq!(multi.lines().len(), 2);
}

#[test]
fn text_input_focus_gates_key_events() {
    let mut input = TextInput::new(TextInputProps::default());
    assert!(input.handle_key(key(KeyCode::Char('x'))).unwrap().is_empty());
    assert!(input.is_empty());
    input.set_focus_state(FocusState::Focused);
    let events = input.handle_key(key(KeyCode::Char('x'))).unwrap();
    assert!(matches!(&events[0], ComponentEvent::ValueChanged { new_value, .. } if new_value == "x"));
}

#[test]
fn button_clicks_and_text() {
    let mut button = Button::new(ButtonProps::default()).with_text("Go");
    assert_eq!(button.get_display_text(), "Go");
    assert!(button.click());
    assert_eq!(button.click_count(), 1);
    button.disable();
    assert!(!button.click());
    button.enable();
    button.start_loading();
    assert!(button.is_loading());
    button.stop_loading();
    button.reset_click_count();
    assert_eq!(button.click_count(), 0);
}

#[test]
fn confirmation_keys() {
    let mut dialog = Confirmation::new(ComponentId::new("confirm"), ConfirmationProps::default());
    assert!(dialog.handle_key(key(KeyCode::Char('y'))).unwrap().is_empty());
    dialog.open();
    assert!(dialog.is_open());
    dialog.handle_key(key(KeyCode::Char('y'))).unwrap();
    assert!(dialog.is_confirmed());
    assert!(!dialog.is_open());
    dialog.open();
    dialog.handle_key(key(KeyCode::Esc)).unwrap();
    assert_eq!(dialog.get_result(), Some(ConfirmationResult::Dismissed));

    let mut props = ConfirmationProps::default();
    props.confirmation_type = ConfirmationType::OkCancel;
    let ok = Confirmation::new(ComponentId::new("ok"), props);
    assert_eq!(ok.build_button_text(true), "✓ OK");
    assert_eq!(ok.build_button_text(false), "✗ Cancel");
}

#[test]
fn modal_opens_and_closes() {
    let mut modal = Modal::new(ComponentId::new("modal"), ModalProps::default());
    assert!(modal.view().is_none());
    modal.open();
    let view = modal.view().unwrap();
    assert_eq!((view.width, view.height), (60, 25));
    modal.handle_key(key(KeyCode::Esc)).unwrap();
    assert!(!modal.is_open());
    assert_eq!(ModalSize::Custom { width: 3, height: 4 }.dimensions(), (3, 4));
}

#[test]
fn status_messages_and_progress() {
    assert_eq!(ProgressInfo::new(5, 10, "half").percentage(), 50);
    assert_eq!(ProgressInfo::new(5, 0, "none").percentage(), 0);
    let msg = StatusMessage::error("bad").with_timeout(100);
    assert_eq!(msg.level, StatusLevel::Error);
    assert_eq!(msg.timeout, Some(100));
    assert!(StatusMessage::info("x").persistent().persistent);
    let mut bar = StatusBar::new(ComponentId::new("status"), StatusBarProps::default());
    bar.set_message(StatusMessage::success("done"));
    bar.clear_message();
    let shortcuts = bar.build_shortcuts_text();
    assert!(shortcuts.contains("F1: "));
    assert!(shortcuts.contains("Ctrl+C: "));
}

#[test]
fn tui_routing_and_quit() {
    let mut app = TuiApplication::new();
    app.handle_key_event(key(KeyCode::Char('r'))).unwrap();
    assert_eq!(app.get_ui_state().status_message, "Creating release...");
    assert!(!app.should_quit());
    app.handle_key_event(KeyEvent::new(KeyCode::Char('q'), KeyModifiers::control())).unwrap();
    assert!(app.should_quit());

    let state = UiState::default();
    assert!(matches!(route_input(key(KeyCode::Char('2')), &state), Some(UiAction::NavigateToScreen(s)) if s == "sync_tasks"));
    assert!(route_input(KeyEvent::new(KeyCode::Char('q'), KeyModifiers::control()), &state).is_none());
    let mut state = UiState::default();
    state.handle_event(UiEvent::Error("oops".to_string()));
    assert_eq!(state.error_message, Some("oops".to_string()));
    let _ = ValidationState::Valid;
}

#[test]
fn status_levels_take_theme_colors() {
    let theme = semantic_release_tui::theme::AppTheme::dark();
    assert_eq!(StatusLevel::Info.color(&theme), theme.colors.info);
    assert_eq!(StatusLevel::Success.color(&theme), theme.colors.success);
    assert_eq!(StatusLevel::Warning.color(&theme), theme.colors.warning);
    assert_eq!(StatusLevel::Error.color(&theme), theme.colors.error);
}

#[test]
fn select_view_shows_dropdown_below_the_field() {
    let options = vec![SelectOption::new("a", "Alpha"), SelectOption::new("b", "Beta")];
    let mut select = Select::new(SelectProps::default()).with_options(options).multi_select(true);
    select.add_selection("b".to_string());
    let closed = select.view(Area { x: 0, y: 0, width: 20, height: 3 }, 40);
    assert!(closed.content.ends_with(" ▼"));
    assert!(closed.dropdown.is_none());
    select.open();
    let open = select.view(Area { x: 0, y: 0, width: 20, height: 3 }, 40);
    assert!(open.content.ends_with(" ▲"));
    assert!(!open.nothing_selected);
    let dropdown = open.dropdown.expect("dropdown");
    assert_eq!(dropdown.area, Area { x: 0, y: 3, width: 20, height: 4 });
    assert_eq!(dropdown.items.len(), 2);
    assert_eq!(dropdown.items[0].text, "☐ Alpha");
    assert_eq!(dropdown.items[1].text, "☑ Beta");
    assert!(dropdown.items[1].selected);
    assert!(dropdown.search_line.is_none());
    let low = select.view(Area { x: 0, y: 35, width: 20, height: 3 }, 40);
    assert!(low.dropdown.is_none());
}
