use semantic_release_tui::text_input::{TextInput, TextInputProps};
use semantic_release_tui::text_input_demo::create_demo_text_inputs;
use semantic_release_tui::theme_demo::ThemeDemo;

#[test]
fn test_demo_components_creation() {
    let inputs = create_demo_text_inputs();
    assert_eq!(inputs.len(), 6);

    assert_eq!(inputs[0].props().title, "Simple Input");
    assert!(inputs[1].props().required);
    assert!(inputs[2].props().multiline);
    assert!(inputs[3].props().validation_pattern.is_some());
    assert!(inputs[4].props().readonly);
    assert!(inputs[5].props().help_text.is_some());
}

#[test]
fn test_component_operations() {
    let mut input = TextInput::new(TextInputProps::default()).with_title("Test").required(true);

    assert!(input.is_empty());
    assert!(!input.is_valid());

    input.set_text("Test content");

    assert!(!input.is_empty());
    assert!(input.is_valid());

    input.clear();

    assert!(input.is_empty());
    assert!(!input.is_valid());
}

#[test]
fn demo_inputs_keep_their_values() {
    let inputs = create_demo_text_inputs();
    assert_eq!(inputs[0].id().to_display_string(), "simple_input");
    assert_eq!(inputs[4].text(), "This value cannot be changed");
    assert_eq!(inputs[2].props().max_length, Some(500));
    assert_eq!(inputs[5].props().max_length, Some(50));
}

#[test]
fn test_theme_demo_creation() {
    let demo = ThemeDemo::new();
    assert_eq!(demo.theme_index(), 0);
    assert_eq!(demo.available_themes().len(), 3);
}

#[test]
fn demo_test_theme_switching() {
    let mut demo = ThemeDemo::new();
    let initial_theme = demo.current_theme().name.clone();

    demo.next_theme();
    assert_ne!(demo.current_theme().name, initial_theme);

    demo.previous_theme();
    assert_eq!(demo.current_theme().name, initial_theme);
}

#[test]
fn theme_demo_wraps_both_ways() {
    let mut demo = ThemeDemo::new();
    demo.previous_theme();
    assert_eq!(demo.theme_index(), 2);
    assert_eq!(demo.current_theme().name, "High Contrast");
    demo.next_theme();
    assert_eq!(demo.theme_index(), 0);
    assert_eq!(demo.current_theme().name, "Light");
    demo.next_theme();
    demo.next_theme();
    demo.next_theme();
    assert_eq!(demo.theme_index(), 0);
}

#[test]
fn set_text_splits_lines_and_drops_carriage_returns() {
    let mut input = TextInput::new(TextInputProps::default()).multiline(true);
    input.set_text("first\r\nsecond\n");
    assert_eq!(input.lines(), ["first".to_string(), "second".to_string(), String::new()]);
    assert_eq!(input.text(), "first\nsecond\n");
    input.clear();
    assert_eq!(input.lines(), [String::new()]);
}

#[test]
fn initial_value_fills_the_lines() {
    let mut props = TextInputProps::default();
    props.initial_value = "x\ny".to_string();
    let input = TextInput::new(props);
    assert_eq!(input.lines(), ["x".to_string(), "y".to_string()]);
    let replaced = input.with_initial_value("z");
    assert_eq!(replaced.lines(), ["z".to_string()]);
}
