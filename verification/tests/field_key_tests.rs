use semantic_release_tui::button::{Button, ButtonProps};
use semantic_release_tui::checkbox::{Checkbox, CheckboxProps};
use semantic_release_tui::component::{ComponentEvent, ComponentId, FocusState};
use semantic_release_tui::form::{FormBuilder, FormField, FormLayout};
use semantic_release_tui::keys::{KeyCode, KeyEvent, KeyModifiers};
use semantic_release_tui::radio::{Radio, RadioOption, RadioProps};
use semantic_release_tui::select::{Select, SelectOption, SelectProps};
use semantic_release_tui::text_input::{TextInput, TextInputProps, TextKey, TextKeyInput};

fn key(code: KeyCode) -> KeyEvent {
    KeyEvent::new(code, KeyModifiers::empty())
}

fn plain(key: TextKey) -> TextKeyInput {
    TextKeyInput { key, ctrl: false, alt: false, shift: false }
}

fn focused_checkbox(id: &str) -> Checkbox {
    let mut cb = Checkbox::new(CheckboxProps { id: ComponentId::new(id), ..CheckboxProps::default() });
    cb.set_focus_state(FocusState::Focused);
    cb
}

#[test]
fn field_key_reaches_a_checkbox_inside_a_group() {
    let form = FormBuilder::new("f")
        .build()
        .add_group("Terms", vec![FormField::Checkbox(focused_checkbox("agree"))], FormLayout::Vertical);
    let events = form.handle_field_key(&ComponentId::new("agree"), key(KeyCode::Char(' '))).unwrap();
    assert_eq!(events.len(), 1);
    match &events[0] {
        ComponentEvent::ValueChanged { component_id, old_value, new_value } => {
            assert_eq!(component_id.0, "agree");
            assert_eq!(old_value, "Unchecked");
            assert_eq!(new_value, "Checked");
        }
        other => panic!("unexpected event {:?}", other),
    }
}

#[test]
fn field_key_for_an_unknown_identifier_reports_nothing() {
    let form = FormBuilder::new("f")
        .build()
        .add_group("Terms", vec![FormField::Checkbox(focused_checkbox("agree"))], FormLayout::Vertical);
    let events = form.handle_field_key(&ComponentId::new("missing"), key(KeyCode::Char(' '))).unwrap();
    assert!(events.is_empty());
}

#[test]
fn field_key_clicks_a_focused_button() {
    let mut button = Button::new(ButtonProps { id: ComponentId::new("go"), ..ButtonProps::default() }).with_text("Go");
    button.set_focus_state(FocusState::Focused);
    let form = FormBuilder::new("f").build().add_group("Actions", vec![FormField::Button(button)], FormLayout::Vertical);
    let events = form.handle_field_key(&ComponentId::new("go"), key(KeyCode::Enter)).unwrap();
    assert_eq!(events.len(), 1);
    match &events[0] {
        ComponentEvent::ButtonClicked { component_id, button_text, click_count } => {
            assert_eq!(component_id.0, "go");
            assert_eq!(button_text, "Go");
            assert_eq!(*click_count, 1);
        }
        other => panic!("unexpected event {:?}", other),
    }
}

#[test]
fn handle_input_arrows_only_move_the_cursor() {
    let mut input = TextInput::new(TextInputProps::default()).with_initial_value("ab");
    assert!(!input.handle_input(plain(TextKey::Left)));
    assert!(!input.handle_input(plain(TextKey::Home)));
    assert_eq!(input.text(), "ab");
    assert!(input.handle_input(plain(TextKey::Char('x'))));
    assert_eq!(input.text(), "xab");
}

#[test]
fn handle_input_ignores_keys_the_editor_does_not_take() {
    let mut input = TextInput::new(TextInputProps::default()).with_initial_value("ab");
    assert!(!input.handle_input(plain(TextKey::Esc)));
    assert!(!input.handle_input(plain(TextKey::F(2))));
    assert_eq!(input.text(), "ab");
}

#[test]
fn handle_input_enter_breaks_a_multiline_text() {
    let mut input = TextInput::new(TextInputProps::default()).multiline(true).with_initial_value("ab");
    assert!(input.handle_input(plain(TextKey::Enter)));
    assert_eq!(input.lines().len(), 2);
}

fn ctrl(key: TextKey) -> TextKeyInput {
    TextKeyInput { key, ctrl: true, alt: false, shift: false }
}

#[test]
fn handle_input_backspace_removes_the_character_before_the_cursor() {
    let mut input = TextInput::new(TextInputProps::default()).with_initial_value("abc");
    assert!(!input.handle_input(plain(TextKey::Left)));
    assert!(input.handle_input(plain(TextKey::Backspace)));
    assert_eq!(input.text(), "ac");
}

#[test]
fn handle_input_unbound_ctrl_letters_do_nothing() {
    let mut input = TextInput::new(TextInputProps::default()).with_initial_value("abc");
    assert!(!input.handle_input(ctrl(TextKey::Char('q'))));
    assert!(!input.handle_input(ctrl(TextKey::Char('z'))));
    assert_eq!(input.text(), "abc");
}

#[test]
fn handle_input_paste_over_a_selection_reports_no_edit() {
    let mut input = TextInput::new(TextInputProps::default()).with_initial_value("ab");
    assert!(!input.handle_input(plain(TextKey::Home)));
    assert!(!input.handle_input(TextKeyInput { key: TextKey::Right, ctrl: false, alt: false, shift: true }));
    assert!(!input.handle_input(ctrl(TextKey::Char('y'))));
    assert_eq!(input.text(), "b");
}

fn value_change(events: &[ComponentEvent]) -> (String, String, String) {
    assert_eq!(events.len(), 1);
    match &events[0] {
        ComponentEvent::ValueChanged { component_id, old_value, new_value } => {
            (component_id.0.clone(), old_value.clone(), new_value.clone())
        }
        other => panic!("unexpected event {:?}", other),
    }
}

#[test]
fn insert_text_splices_lines_at_the_cursor() {
    let mut input = TextInput::new(TextInputProps::default()).with_initial_value("ab");
    assert!(!input.handle_input(plain(TextKey::Left)));
    input.insert_text("x\ny");
    assert_eq!(input.lines().to_vec(), vec!["ax".to_string(), "yb".to_string()]);
    assert!(input.handle_input(plain(TextKey::Char('!'))));
    assert_eq!(input.text(), "ax\ny!b");
}

#[test]
fn select_enter_chooses_the_highlighted_option_and_closes() {
    let options = vec![SelectOption::new("1", "One"), SelectOption::new("2", "Two")];
    let mut select = Select::new(SelectProps { id: ComponentId::new("pick"), ..SelectProps::default() }).with_options(options);
    select.set_focus_state(FocusState::Focused);
    assert!(select.handle_key(key(KeyCode::Enter)).unwrap().is_empty());
    assert!(select.state().is_open);
    let events = select.handle_key(key(KeyCode::Enter)).unwrap();
    assert_eq!(value_change(&events), ("pick".to_string(), "".to_string(), "1".to_string()));
    assert_eq!(select.selected_values(), vec!["1".to_string()]);
    assert!(!select.state().is_open);
}

#[test]
fn field_key_reaches_a_select_a_radio_and_a_text_field() {
    let mut select = Select::new(SelectProps { id: ComponentId::new("pick"), ..SelectProps::default() })
        .with_options(vec![SelectOption::new("1", "One")]);
    select.set_focus_state(FocusState::Focused);
    select.open();
    let mut radio = Radio::new(RadioProps { id: ComponentId::new("size"), ..RadioProps::default() })
        .with_options(vec![RadioOption::new("s", "Small"), RadioOption::new("l", "Large")]);
    radio.set_focus_state(FocusState::Focused);
    let mut text = TextInput::new(TextInputProps { id: ComponentId::new("name"), ..TextInputProps::default() });
    text.set_focus_state(FocusState::Focused);
    let form = FormBuilder::new("f").build().add_group(
        "All",
        vec![FormField::Select(select), FormField::Radio(radio), FormField::TextInput(text)],
        FormLayout::Vertical,
    );
    let events = form.handle_field_key(&ComponentId::new("pick"), key(KeyCode::Enter)).unwrap();
    assert_eq!(value_change(&events), ("pick".to_string(), "".to_string(), "1".to_string()));
    let events = form.handle_field_key(&ComponentId::new("size"), key(KeyCode::Char('2'))).unwrap();
    assert_eq!(value_change(&events), ("size".to_string(), "".to_string(), "l".to_string()));
    let events = form.handle_field_key(&ComponentId::new("name"), key(KeyCode::Char('z'))).unwrap();
    assert_eq!(value_change(&events), ("name".to_string(), "".to_string(), "z".to_string()));
}
