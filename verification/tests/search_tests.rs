use semantic_release_tui::keys::{KeyCode, KeyEvent, KeyModifiers};
use semantic_release_tui::search::{match_type_of, search_stats, MatchType, SearchKeyOutcome, SearchListComponentState};

#[test]
fn match_kinds_in_order_of_priority() {
    assert_eq!(match_type_of("feature", "feature", true), MatchType::Exact);
    assert_eq!(match_type_of("feat", "feature", true), MatchType::Prefix);
    assert_eq!(match_type_of("tur", "feature", true), MatchType::Contains);
    assert_eq!(match_type_of("fte", "feature", true), MatchType::Fuzzy);
}

#[test]
fn match_kind_folds_case_unless_asked() {
    assert_eq!(match_type_of("FEAT", "feature", false), MatchType::Prefix);
    assert_eq!(match_type_of("FEAT", "feature", true), MatchType::Fuzzy);
    assert_eq!(match_type_of("Feature", "fEATURE", false), MatchType::Exact);
}

#[test]
fn empty_query_is_a_prefix_of_any_text() {
    assert_eq!(match_type_of("", "release", true), MatchType::Prefix);
    assert_eq!(match_type_of("", "", true), MatchType::Exact);
}

#[test]
fn priorities_of_match_kinds() {
    assert_eq!(MatchType::Exact.priority(), 4);
    assert_eq!(MatchType::Prefix.priority(), 3);
    assert_eq!(MatchType::Contains.priority(), 2);
    assert_eq!(MatchType::Fuzzy.priority(), 1);
}

#[test]
fn statistics_count_each_kind() {
    let kinds = vec![MatchType::Exact, MatchType::Fuzzy, MatchType::Prefix, MatchType::Fuzzy, MatchType::Contains];
    let s = search_stats(12, &kinds, 7);
    assert_eq!(s.total_items, 12);
    assert_eq!(s.filtered_items, 5);
    assert_eq!(s.exact_matches, 1);
    assert_eq!(s.prefix_matches, 1);
    assert_eq!(s.contains_matches, 1);
    assert_eq!(s.fuzzy_matches, 2);
    assert_eq!(s.search_time_ms, 7);
}

#[test]
fn statistics_of_an_empty_search() {
    let s = search_stats(3, &Vec::new(), 0);
    assert_eq!(s.filtered_items, 0);
    assert_eq!(s.exact_matches + s.prefix_matches + s.contains_matches + s.fuzzy_matches, 0);
}

fn key(code: KeyCode) -> KeyEvent {
    KeyEvent::new(code, KeyModifiers::empty())
}

#[test]
fn search_list_typing_edits_the_query() {
    let mut st = SearchListComponentState::default();
    assert_eq!(st.handle_key(key(KeyCode::Char('/')), true, 0, None), SearchKeyOutcome { handled: true, search: false });
    assert!(st.search_mode);
    assert_eq!(st.handle_key(key(KeyCode::Char('a')), true, 0, None), SearchKeyOutcome { handled: true, search: true });
    assert_eq!(st.handle_key(key(KeyCode::Char('b')), false, 0, None), SearchKeyOutcome { handled: true, search: false });
    assert_eq!(st.query, "ab");
    st.handle_key(key(KeyCode::Backspace), true, 0, None);
    assert_eq!(st.query, "a");
    assert_eq!(st.handle_key(key(KeyCode::Enter), false, 0, None), SearchKeyOutcome { handled: true, search: true });
    assert!(!st.search_mode);
}

#[test]
fn search_list_cursor_and_selection() {
    let mut st = SearchListComponentState::default();
    st.handle_key(key(KeyCode::Up), true, 3, None);
    assert_eq!(st.current_item, 0);
    st.handle_key(key(KeyCode::Down), true, 3, None);
    st.handle_key(key(KeyCode::Down), true, 3, None);
    st.handle_key(key(KeyCode::Down), true, 3, None);
    assert_eq!(st.current_item, 2);
    st.handle_key(key(KeyCode::Enter), true, 3, Some("task-7"));
    assert_eq!(st.selected_items, vec!["task-7".to_string()]);
    st.toggle_selection(Some("task-9"));
    st.toggle_selection(Some("task-7"));
    assert_eq!(st.selected_items, vec!["task-9".to_string()]);
    st.toggle_selection(None);
    assert_eq!(st.selected_items.len(), 1);
    assert_eq!(st.handle_key(key(KeyCode::Tab), true, 3, None), SearchKeyOutcome { handled: false, search: false });
}

#[test]
fn toggling_an_item_twice_restores_the_selection() {
    let mut st = SearchListComponentState::default();
    st.toggle_selection(Some("a"));
    let before = st.selected_items.clone();
    st.toggle_selection(Some("b"));
    st.toggle_selection(Some("b"));
    assert_eq!(st.selected_items, before);
}
