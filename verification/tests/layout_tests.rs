use semantic_release_tui::layout::{
    distribute_space, responsive_constraints, ComponentType, LayoutConstants, LayoutConstraint,
    LayoutTheme, MarginSide, Spacing, SpacingSize,
};

#[test]
fn test_spacing() {
    let spacing = Spacing::default();
    assert_eq!(spacing.get(SpacingSize::Zero), 0);
    assert_eq!(spacing.get(SpacingSize::MD), 3);
    assert_eq!(spacing.get(SpacingSize::XL), 6);

    let compact = Spacing::compact();
    assert!(compact.get(SpacingSize::MD) < spacing.get(SpacingSize::MD));

    let comfortable = Spacing::comfortable();
    assert!(comfortable.get(SpacingSize::MD) > spacing.get(SpacingSize::MD));
}

#[test]
fn test_layout_constants() {
    let constants = LayoutConstants::default();

    assert_eq!(constants.get_component_height(ComponentType::Button), 3);
    assert_eq!(constants.get_component_height(ComponentType::Input), 3);

    assert!(constants.is_small_terminal(70));
    assert!(constants.is_medium_terminal(100));
    assert!(constants.is_large_terminal(180));
}

#[test]
fn test_layout_theme() {
    let theme = LayoutTheme::default();

    assert_eq!(theme.get_padding(SpacingSize::MD), 3);
    assert_eq!(theme.get_margin(MarginSide::Top, SpacingSize::SM), 2);

    let (width, height) = theme.get_dialog_size(100, 30);
    assert!(width >= theme.constants.dialog_min_width);
    assert!(width <= theme.constants.dialog_max_width);
    assert!(height >= theme.constants.dialog_min_height);
    assert!(height <= theme.constants.dialog_max_height);

    let sidebar_width = theme.get_sidebar_width(70);
    assert_eq!(sidebar_width, 0);

    let sidebar_width = theme.get_sidebar_width(120);
    assert!(sidebar_width > 0 && sidebar_width < theme.constants.sidebar_width);
}

#[test]
fn test_responsive_constraints() {
    let theme = LayoutTheme::default();

    let small_constraints = responsive_constraints(70, &theme);
    assert_eq!(small_constraints.len(), 1);

    let medium_constraints = responsive_constraints(100, &theme);
    assert_eq!(medium_constraints.len(), 2);

    let large_constraints = responsive_constraints(180, &theme);
    assert_eq!(large_constraints.len(), 3);
}

#[test]
fn test_space_distribution() {
    let sizes = distribute_space(100, 3, 10, 2);
    assert_eq!(sizes.len(), 3);

    let total_used: u16 = sizes.iter().sum::<u16>() + 2 * 2;
    assert!(total_used <= 100);

    assert!(sizes.iter().all(|&size| size >= 10));
}

#[test]
fn space_distribution_exact_values() {
    // 100 - 2*2 = 96 split in 3: 32 each.
    assert_eq!(distribute_space(100, 3, 10, 2), vec![32, 32, 32]);
    // 10 split in 3: 4, 3, 3.
    assert_eq!(distribute_space(10, 3, 1, 0), vec![4, 3, 3]);
    // Below the minimum every component gets the minimum.
    assert_eq!(distribute_space(10, 3, 5, 1), vec![5, 5, 5]);
    // Spacing larger than the space leaves nothing.
    assert_eq!(distribute_space(3, 3, 0, 5), vec![0, 0, 0]);
}

#[test]
fn dialog_size_exact_values() {
    let theme = LayoutTheme::default();
    // Medium: 100 * 80 / 100 = 80 wide; 30 * 80 / 100 = 24 high.
    assert_eq!(theme.get_dialog_size(100, 30), (80, 24));
    // Small: 70 * 90 / 100 = 63.
    assert_eq!(theme.get_dialog_size(70, 10), (63, 10));
    // Large: 200 * 70 / 100 = 140, lowered to 120.
    assert_eq!(theme.get_dialog_size(200, 100), (120, 40));
}

#[test]
fn sidebar_width_exact_values() {
    let theme = LayoutTheme::default();
    assert_eq!(theme.get_sidebar_width(120), 20);
    assert_eq!(theme.get_sidebar_width(200), 25);
    let compact = LayoutTheme::compact();
    // 20 * 80 / 100 = 16.
    assert_eq!(compact.get_sidebar_width(100), 16);
}

#[test]
fn responsive_constraint_percentages() {
    let theme = LayoutTheme::default();
    assert_eq!(responsive_constraints(100, &theme), vec![LayoutConstraint::Percentage(60), LayoutConstraint::Percentage(40)]);
    assert_eq!(
        responsive_constraints(180, &theme),
        vec![LayoutConstraint::Percentage(25), LayoutConstraint::Percentage(50), LayoutConstraint::Percentage(25)]
    );
}
