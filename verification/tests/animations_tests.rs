use semantic_release_tui::animations::{
    AnimationConfig, EasingFunction, LoadingIndicator, LoadingIndicatorConfig, SpinnerStyle,
    TransitionEffect, TransitionType,
};

#[test]
fn test_animation_config() {
    let default_config = AnimationConfig::default();
    assert!(default_config.enabled);
    assert!(default_config.duration_fast < default_config.duration_normal);
    assert!(default_config.duration_normal < default_config.duration_slow);

    let minimal_config = AnimationConfig::minimal();
    assert!(!minimal_config.enabled);
    assert!(minimal_config.duration_normal < default_config.duration_normal);
}

#[test]
fn test_spinner_styles() {
    let config = LoadingIndicatorConfig::default();
    let mut indicator = LoadingIndicator::new(&config);

    for &style in &[SpinnerStyle::Simple, SpinnerStyle::Dots, SpinnerStyle::Arc, SpinnerStyle::Arrows] {
        indicator.style = style;
        let char1 = indicator.get_frame_char(0);
        let char2 = indicator.get_frame_char(1);
        assert_ne!(char1, char2, "Style {:?} should have different frames", style);
    }
}

#[test]
fn spinner_frames_by_elapsed_time() {
    let config = LoadingIndicatorConfig::default();
    let mut indicator = LoadingIndicator::new(&config);
    indicator.style = SpinnerStyle::Simple;
    assert_eq!(indicator.current_char_at(0), '-');
    assert_eq!(indicator.current_char_at(150), '\\');
    assert_eq!(indicator.current_char_at(250), '|');
    assert_eq!(indicator.current_char_at(399), '/');
    assert_eq!(indicator.current_char_at(400), '-');
    assert!(!indicator.should_update_at(99));
    assert!(indicator.should_update_at(100));
}

#[test]
fn spinner_frames_repeat() {
    let config = LoadingIndicatorConfig::smooth();
    let indicator = LoadingIndicator::new(&config);
    assert_eq!(indicator.get_frame_char(0), indicator.get_frame_char(6));
    assert_eq!(indicator.get_frame_char(0), '◜');
}

#[test]
fn transition_completes_after_its_duration() {
    let transition = TransitionEffect::new(TransitionType::Fade, 100, EasingFunction::Linear);
    assert!(!transition.is_complete_at(99));
    assert!(transition.is_complete_at(100));
    assert_eq!(transition.duration(), 100);
    assert_eq!(transition.easing(), EasingFunction::Linear);
}

#[test]
fn configuration_presets() {
    let smooth = AnimationConfig::smooth();
    assert_eq!(smooth.duration_slow, 800);
    assert_eq!(smooth.loading_indicators.spinner_style, SpinnerStyle::Arc);
    assert_eq!(smooth.transitions.easing, EasingFunction::EaseInOutCubic);
    let minimal = LoadingIndicatorConfig::minimal();
    assert_eq!(minimal.update_interval, 200);
    assert!(!minimal.pulse_enabled);
}
