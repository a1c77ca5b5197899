use semantic_release_tui::style::Color;
use semantic_release_tui::theme::{AppTheme, ThemeVariant};
use semantic_release_tui::theme_manager::{
    detect_system_theme, ThemeError, ThemeEvent, ThemeManager, ThemePreference,
};

#[test]
fn test_theme_manager_creation() {
    let manager = ThemeManager::new();
    assert_eq!(manager.current_theme().name, "Dark");
    assert!(manager.has_theme("light"));
    assert!(manager.has_theme("dark"));
    assert!(manager.has_theme("high_contrast"));
}

#[test]
fn theme_manager_test_theme_switching() {
    let mut manager = ThemeManager::new();

    assert!(manager.set_theme("light").is_ok());
    assert_eq!(manager.current_theme().name, "Light");
    assert_eq!(manager.preferences().current_theme, "light");

    assert!(manager.set_theme("nonexistent").is_err());
}

#[test]
fn test_theme_cycling() {
    let mut manager = ThemeManager::new();
    let initial_theme = manager.preferences().current_theme.clone();

    assert!(manager.cycle_theme().is_ok());
    assert_ne!(manager.preferences().current_theme, initial_theme);
}

#[test]
fn cycling_follows_registration_order() {
    let mut manager = ThemeManager::new();
    assert!(manager.cycle_theme().is_ok());
    assert_eq!(manager.preferences().current_theme, "high_contrast");
    assert!(manager.cycle_theme().is_ok());
    assert_eq!(manager.preferences().current_theme, "light");
    assert!(manager.cycle_theme().is_ok());
    assert_eq!(manager.preferences().current_theme, "dark");
}

#[test]
fn test_light_dark_toggle() {
    let mut manager = ThemeManager::new();

    manager.set_theme("dark").unwrap();
    assert_eq!(manager.current_theme().variant, ThemeVariant::Dark);

    assert!(manager.toggle_light_dark().is_ok());
    assert_eq!(manager.current_theme().variant, ThemeVariant::Light);

    assert!(manager.toggle_light_dark().is_ok());
    assert_eq!(manager.current_theme().variant, ThemeVariant::Dark);
}

#[test]
fn test_high_contrast_toggle() {
    let mut manager = ThemeManager::new();

    assert!(!manager.preferences().high_contrast_mode);

    assert!(manager.toggle_high_contrast().is_ok());
    assert!(manager.preferences().high_contrast_mode);
    assert_eq!(manager.current_theme().variant, ThemeVariant::HighContrast);

    assert!(manager.toggle_high_contrast().is_ok());
    assert!(!manager.preferences().high_contrast_mode);
}

#[test]
fn test_custom_theme_registration() {
    let mut manager = ThemeManager::new();
    let custom_theme = AppTheme::dark();

    assert!(manager.register_theme("custom".to_string(), custom_theme).is_ok());
    assert!(manager.has_theme("custom"));

    let duplicate_theme = AppTheme::light();
    assert!(manager.register_theme("custom".to_string(), duplicate_theme).is_err());

    assert!(manager.unregister_theme("custom").is_ok());
    assert!(!manager.has_theme("custom"));

    assert!(manager.unregister_theme("dark").is_err());
}

#[test]
fn unregistering_the_current_theme_falls_back_to_dark() {
    let mut manager = ThemeManager::new();
    manager.register_theme("mine".to_string(), AppTheme::light()).unwrap();
    assert_eq!(manager.preferences().custom_themes, vec!["mine".to_string()]);
    manager.set_theme("mine").unwrap();
    manager.take_events();
    manager.unregister_theme("mine").unwrap();
    assert_eq!(manager.preferences().current_theme, "dark");
    assert_eq!(manager.current_theme().variant, ThemeVariant::Dark);
    assert!(manager.preferences().custom_themes.is_empty());
    let events = manager.take_events();
    assert_eq!(events.len(), 2);
    assert!(matches!(&events[1], ThemeEvent::ThemeUnregistered { theme_name } if theme_name == "mine"));
    assert_eq!(
        manager.unregister_theme("missing"),
        Err(ThemeError::ThemeNotFound("missing".to_string()))
    );
    assert_eq!(
        manager.unregister_theme("high_contrast"),
        Err(ThemeError::CannotRemoveDefaultTheme("high_contrast".to_string()))
    );
}

#[test]
fn test_theme_listing() {
    let manager = ThemeManager::new();
    let themes = manager.list_themes();

    assert!(themes.len() >= 3);

    let theme_names: Vec<String> = themes.iter().map(|(name, _)| name.clone()).collect();
    assert!(theme_names.contains(&"light".to_string()));
    assert!(theme_names.contains(&"dark".to_string()));
    assert!(theme_names.contains(&"high_contrast".to_string()));
}

#[test]
fn test_event_system() {
    let mut manager = ThemeManager::new();

    manager.set_theme("light").unwrap();

    let events = manager.take_events();
    assert!(!events.is_empty());

    match &events[0] {
        ThemeEvent::ThemeChanged { old_theme, new_theme } => {
            assert_eq!(old_theme, "dark");
            assert_eq!(new_theme, "light");
        }
        _ => panic!("Expected ThemeChanged event"),
    }
    assert!(manager.take_save_request());
    assert!(!manager.take_save_request());
}

#[test]
fn test_system_theme_handling() {
    let mut manager = ThemeManager::new();
    let mut prefs = manager.preferences().clone();
    prefs.follow_system = true;
    manager.update_preferences(prefs).unwrap();

    assert!(manager.handle_system_theme_change(true).is_ok());
    assert_eq!(manager.current_theme().variant, ThemeVariant::Dark);

    assert!(manager.handle_system_theme_change(false).is_ok());
    assert_eq!(manager.current_theme().variant, ThemeVariant::Light);

    let mut prefs = manager.preferences().clone();
    prefs.follow_system = false;
    manager.update_preferences(prefs).unwrap();
    let current_theme = manager.preferences().current_theme.clone();

    assert!(manager.handle_system_theme_change(true).is_ok());
    assert_eq!(manager.preferences().current_theme, current_theme);
}

#[test]
fn loaded_preferences_apply_a_registered_theme() {
    let mut manager = ThemeManager::new();
    let mut prefs = ThemePreference::default();
    prefs.current_theme = "high_contrast".to_string();
    prefs.auto_switch = true;
    manager.apply_loaded_preferences(prefs);
    assert_eq!(manager.current_theme().variant, ThemeVariant::HighContrast);
    assert!(manager.preferences().auto_switch);
    assert!(!manager.take_save_request());
    let events = manager.take_events();
    assert!(matches!(&events[0], ThemeEvent::ThemeLoaded { theme_name } if theme_name == "high_contrast"));
}

#[test]
fn export_and_import_theme_descriptions() {
    let mut manager = ThemeManager::new();
    let exported = manager.export_theme(&AppTheme::high_contrast()).unwrap();
    assert_eq!(
        exported,
        "{\"name\":\"High Contrast\",\"variant\":\"High Contrast\",\"description\":\"High contrast theme for accessibility\"}"
    );
    assert_eq!(manager.import_theme(&exported).unwrap().variant, ThemeVariant::HighContrast);
    assert_eq!(manager.import_theme("{\"name\":\"Dark\"}").unwrap().variant, ThemeVariant::Dark);
    assert_eq!(manager.import_theme("anything").unwrap().variant, ThemeVariant::Light);
}

#[test]
fn theme_errors_and_system_detection() {
    assert_eq!(ThemeError::ThemeNotFound("x".to_string()).to_string(), "Theme 'x' not found");
    assert_eq!(ThemeError::ThemeAlreadyExists("x".to_string()).to_string(), "Theme 'x' already exists");
    assert_eq!(ThemeError::CannotRemoveDefaultTheme("dark".to_string()).to_string(), "Cannot remove default theme 'dark'");
    assert_eq!(ThemeError::NoThemesAvailable.to_string(), "No themes available");
    assert_eq!(ThemeError::FileError("gone".to_string()).to_string(), "File error: gone");
    assert_eq!(ThemeError::SerializationError("bad".to_string()).to_string(), "Serialization error: bad");
    assert_eq!(detect_system_theme(), None);
    let manager = ThemeManager::default();
    assert_eq!(manager.current_theme().colors.background, Color::Rgb(13, 17, 23));
}
