use semantic_release_tui::component::{
    ComponentId, CommonComponentState, FocusState, ValidationState, VisibilityState,
};
use semantic_release_tui::keyboard::{
    emacs_key_bindings, vim_key_bindings, KeyAction, KeyBinding, KeyMapper, NavigationContext,
    NavigationMode,
};
use semantic_release_tui::component::NavigationDirection;
use semantic_release_tui::keys::{KeyCode, KeyEvent, KeyModifiers};

#[test]
fn test_component_id_creation() {
    let id = ComponentId::new("test_button");
    assert_eq!(id.0, "test_button");

    let suffixed = id.with_suffix("main");
    assert_eq!(suffixed.0, "test_button_main");
}

#[test]
fn test_component_id_from_str() {
    let id: ComponentId = "form_input".into();
    assert_eq!(id.0, "form_input");
}

#[test]
fn test_component_id_display() {
    let id = ComponentId::new("display_test");
    assert_eq!(id.to_display_string(), "display_test");
}

#[test]
fn test_common_component_state() {
    let mut state = CommonComponentState::default();
    assert!(!state.is_dirty());
    state.mark_dirty();
    assert!(state.is_dirty());
    state.clear_dirty();
    assert!(!state.is_dirty());
}

#[test]
fn common_state_focus_rules() {
    let mut state = CommonComponentState::new();
    assert_eq!(state.focus_state, FocusState::Unfocused);
    assert_eq!(state.visibility_state, VisibilityState::Visible);
    assert_eq!(state.validation_state, ValidationState::Valid);
    assert!(state.can_focus());
    state.focus_state = FocusState::Disabled;
    assert!(!state.can_focus());
    state.focus_state = FocusState::Focused;
    state.visibility_state = VisibilityState::Hidden;
    assert!(!state.can_focus());
    assert!(state.is_focused());
    assert!(!state.is_visible());
}

#[test]
fn test_key_action_navigation() {
    assert_eq!(KeyAction::NavigateUp.to_navigation_direction(), Some(NavigationDirection::Up));
    assert_eq!(KeyAction::FocusNext.to_navigation_direction(), Some(NavigationDirection::Next));
    assert_eq!(KeyAction::Activate.to_navigation_direction(), None);

    assert!(KeyAction::NavigateUp.is_navigation());
    assert!(!KeyAction::Activate.is_navigation());

    assert!(KeyAction::Insert('a').is_editing());
    assert!(!KeyAction::NavigateUp.is_editing());
}

#[test]
fn test_key_binding() {
    let binding = KeyBinding::new(KeyCode::Enter, KeyAction::Activate);

    let matching_event = KeyEvent::new(KeyCode::Enter, KeyModifiers::empty());
    let non_matching_event = KeyEvent::new(KeyCode::Esc, KeyModifiers::empty());

    assert!(binding.matches(&matching_event));
    assert!(!binding.matches(&non_matching_event));
}

#[test]
fn test_key_binding_with_modifiers() {
    let binding = KeyBinding::with_modifiers(KeyCode::Char('c'), KeyModifiers::control(), KeyAction::Quit);

    let matching_event = KeyEvent::new(KeyCode::Char('c'), KeyModifiers::control());
    let non_matching_event = KeyEvent::new(KeyCode::Char('c'), KeyModifiers::empty());

    assert!(binding.matches(&matching_event));
    assert!(!binding.matches(&non_matching_event));
}

#[test]
fn test_navigation_context() {
    let mut context = NavigationContext::new();

    assert!(context.current_component.is_none());
    assert!(context.history.is_empty());

    let component1 = ComponentId::new("comp1");
    let component2 = ComponentId::new("comp2");

    context.set_current(component1.clone());
    assert_eq!(context.current_component, Some(component1.clone()));

    context.set_current(component2.clone());
    assert_eq!(context.current_component, Some(component2));
    assert_eq!(context.history, vec![component1.clone()]);

    let previous = context.go_back();
    assert_eq!(previous, Some(component1.clone()));
    assert_eq!(context.current_component, Some(component1));
}

#[test]
fn test_key_mapper() {
    let mut mapper = KeyMapper::new(NavigationMode::Normal);

    let enter_event = KeyEvent::new(KeyCode::Enter, KeyModifiers::empty());
    assert_eq!(mapper.map_key(&enter_event), Some(KeyAction::Activate));

    let char_event = KeyEvent::new(KeyCode::Char('a'), KeyModifiers::empty());
    assert_eq!(mapper.map_key(&char_event), Some(KeyAction::Insert('a')));

    let custom_binding = KeyBinding::new(KeyCode::Char('z'), KeyAction::Custom("test".to_string()));
    mapper.add_binding(custom_binding);

    let z_event = KeyEvent::new(KeyCode::Char('z'), KeyModifiers::empty());
    assert_eq!(mapper.map_key(&z_event), Some(KeyAction::Custom("test".to_string())));

    mapper.remove_binding(KeyCode::Char('z'), KeyModifiers::empty());
    assert_eq!(mapper.map_key(&z_event), Some(KeyAction::Insert('z')));
}

#[test]
fn test_vim_key_bindings() {
    let bindings = vim_key_bindings();

    assert!(bindings.iter().any(|b| b.key == KeyCode::Char('h') && b.action == KeyAction::NavigateLeft));
    assert!(bindings.iter().any(|b| b.key == KeyCode::Char('j') && b.action == KeyAction::NavigateDown));
    assert!(bindings.iter().any(|b| b.key == KeyCode::Char('k') && b.action == KeyAction::NavigateUp));
    assert!(bindings.iter().any(|b| b.key == KeyCode::Char('l') && b.action == KeyAction::NavigateRight));
}

#[test]
fn test_emacs_key_bindings() {
    let bindings = emacs_key_bindings();

    assert!(bindings.iter().any(|b| b.key == KeyCode::Char('p')
        && b.modifiers == KeyModifiers::control()
        && b.action == KeyAction::NavigateUp));
    assert!(bindings.iter().any(|b| b.key == KeyCode::Char('n')
        && b.modifiers == KeyModifiers::control()
        && b.action == KeyAction::NavigateDown));
}

#[test]
fn test_navigation_mode_switching() {
    let mut mapper = KeyMapper::new(NavigationMode::Normal);
    assert_eq!(mapper.navigation_mode(), &NavigationMode::Normal);

    mapper.set_navigation_mode(NavigationMode::Vim);
    assert_eq!(mapper.navigation_mode(), &NavigationMode::Vim);

    let h_event = KeyEvent::new(KeyCode::Char('h'), KeyModifiers::empty());
    assert_eq!(mapper.map_key(&h_event), Some(KeyAction::NavigateLeft));
}

#[test]
fn key_mapper_keeps_last_duplicate_binding() {
    let mapper = KeyMapper::new(NavigationMode::Normal);
    let ctrl_c = KeyEvent::new(KeyCode::Char('c'), KeyModifiers::control());
    assert_eq!(mapper.map_key(&ctrl_c), Some(KeyAction::Copy));
}

#[test]
fn navigation_history_drops_repeated_entries() {
    let mut context = NavigationContext::new();
    context.set_current(ComponentId::new("a"));
    context.set_current(ComponentId::new("b"));
    context.set_current(ComponentId::new("a"));
    context.set_current(ComponentId::new("c"));
    assert_eq!(context.history, vec![ComponentId::new("b"), ComponentId::new("a")]);
    context.clear_history();
    assert!(context.history.is_empty());
    assert_eq!(context.go_back(), None);
}
