use semantic_release_tui::search::{BasicSearchableItem, MatchType, SearchStats, SearchableItem};
use semantic_release_tui::theme::ThemeVariant;

#[test]
fn test_theme_variants() {
    assert_eq!(ThemeVariant::Light.to_string(), "Light");
    assert_eq!(ThemeVariant::Dark.to_string(), "Dark");
    assert_eq!(ThemeVariant::HighContrast.to_string(), "High Contrast");
    assert_eq!(ThemeVariant::Custom(1).to_string(), "Custom 1");
}

#[test]
fn theme_variant_custom_numbers() {
    assert_eq!(ThemeVariant::Custom(0).to_string(), "Custom 0");
    assert_eq!(ThemeVariant::Custom(4294967295).to_string(), "Custom 4294967295");
    assert_eq!(ThemeVariant::default(), ThemeVariant::Dark);
}

#[test]
fn test_searchable_item() {
    let item = BasicSearchableItem::new("1".to_string(), "Test Item".to_string())
        .with_description("A test item".to_string());

    assert_eq!(item.search_text(), "Test Item");
    assert_eq!(item.id(), "1");
}

#[test]
fn searchable_item_texts() {
    let item = BasicSearchableItem::new("2".to_string(), "Title".to_string())
        .with_description("Desc".to_string())
        .with_tags(vec!["a".to_string(), "b".to_string()]);
    assert_eq!(item.secondary_search_text(), vec!["Desc", "a", "b"]);
    assert_eq!(item.display_text(), "Title - Desc");
    let plain = BasicSearchableItem::new("3".to_string(), "Plain".to_string());
    assert_eq!(plain.display_text(), "Plain");
    assert!(plain.secondary_search_text().is_empty());
}

#[test]
fn match_type_priorities() {
    assert_eq!(MatchType::Exact.priority(), 4);
    assert_eq!(MatchType::Prefix.priority(), 3);
    assert_eq!(MatchType::Contains.priority(), 2);
    assert_eq!(MatchType::Fuzzy.priority(), 1);
    assert_eq!(SearchStats::default().total_items, 0);
}
