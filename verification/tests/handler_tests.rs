use semantic_release_tui::component::ComponentError;
use semantic_release_tui::keyboard::{bindings_match, KeyAction, KeyBinding, KeyboardHandler, NavigationContext};
use semantic_release_tui::keys::{KeyCode, KeyEvent, KeyModifiers};

struct Counter {
    count: u32,
}

impl KeyboardHandler for Counter {
    fn handle_key(&mut self, event: KeyEvent, _context: &NavigationContext) -> Result<Vec<KeyAction>, ComponentError> {
        if event.code == KeyCode::Enter {
            self.count += 1;
            Ok(vec![KeyAction::Activate])
        } else {
            Ok(Vec::new())
        }
    }

    fn key_bindings(&self) -> Vec<KeyBinding> {
        vec![
            KeyBinding::new(KeyCode::Enter, KeyAction::Activate),
            KeyBinding::with_modifiers(KeyCode::Char('s'), KeyModifiers::control(), KeyAction::Submit),
        ]
    }
}

#[test]
fn handler_knows_its_bindings() {
    let c = Counter { count: 0 };
    assert!(c.can_handle_key(&KeyEvent::new(KeyCode::Enter, KeyModifiers::empty())));
    assert!(c.can_handle_key(&KeyEvent::new(KeyCode::Char('s'), KeyModifiers::control())));
    assert!(!c.can_handle_key(&KeyEvent::new(KeyCode::Char('s'), KeyModifiers::empty())));
    assert!(!c.can_handle_key(&KeyEvent::new(KeyCode::Esc, KeyModifiers::empty())));
}

#[test]
fn handler_handles_its_keys() {
    let mut c = Counter { count: 0 };
    let actions = c.handle_key(KeyEvent::new(KeyCode::Enter, KeyModifiers::empty()), &NavigationContext::new()).unwrap();
    assert_eq!(actions.len(), 1);
    assert_eq!(c.count, 1);
}

#[test]
fn bindings_match_key_and_modifiers() {
    let bindings = vec![KeyBinding::with_modifiers(KeyCode::Char('q'), KeyModifiers::control(), KeyAction::Cancel)];
    assert!(bindings_match(&bindings, &KeyEvent::new(KeyCode::Char('q'), KeyModifiers::control())));
    assert!(!bindings_match(&bindings, &KeyEvent::new(KeyCode::Char('q'), KeyModifiers::empty())));
    assert!(!bindings_match(&Vec::new(), &KeyEvent::new(KeyCode::Char('q'), KeyModifiers::empty())));
}
