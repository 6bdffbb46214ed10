use taskmanager_iced::highlight::highlight_segments;
use taskmanager_iced::selectable_text::{
    char_boundary_at_or_before, grapheme_index_at, substring, word_range, ClickKind, SelectionState,
};

#[test]
fn boundaries_round_down_inside_a_character() {
    let text = "aé中b";
    assert_eq!(char_boundary_at_or_before(text, 0), 0);
    assert_eq!(char_boundary_at_or_before(text, 2), 1);
    assert_eq!(char_boundary_at_or_before(text, 4), 3);
    assert_eq!(char_boundary_at_or_before(text, 5), 3);
    assert_eq!(char_boundary_at_or_before(text, 99), text.len());
}

#[test]
fn double_click_selects_identifier_words() {
    let text = "pid 1234 at 10.0.0.1:8080 now";
    assert_eq!(word_range(text, 5), (4, 8));
    assert_eq!(word_range(text, 14), (12, 25));
    assert_eq!(word_range(text, 3), (3, 4));
    assert_eq!(word_range(text, 100), (text.len(), text.len()));
    assert_eq!(word_range("a中b", 2), (1, 4));
}

#[test]
fn substring_copies_a_byte_range() {
    assert_eq!(substring("hello world", 6, 11), "world");
    assert_eq!(substring("中文字", 3, 6), "文");
}

#[test]
fn drag_selection_and_release() {
    let mut state = SelectionState::new("hello world".to_string());
    state.press(6, ClickKind::Single);
    assert!(state.dragging());
    state.drag_to(11);
    assert_eq!(state.selection(), (6, 11));
    assert_eq!(state.selected_text().as_deref(), Some("world"));
    assert_eq!(state.release().as_deref(), Some("world"));
    assert!(!state.dragging());
    state.drag_to(0);
    assert_eq!(state.selection(), (6, 11));
}

#[test]
fn backwards_drag_orders_the_range() {
    let mut state = SelectionState::new("hello world".to_string());
    state.press(5, ClickKind::Single);
    state.drag_to(0);
    assert_eq!(state.selection(), (0, 5));
    assert_eq!(state.release().as_deref(), Some("hello"));
}

#[test]
fn double_and_triple_clicks() {
    let mut state = SelectionState::new("alpha beta".to_string());
    state.press(7, ClickKind::Double);
    assert_eq!(state.selection(), (6, 10));
    assert!(!state.dragging());
    state.press(0, ClickKind::Triple);
    assert_eq!(state.selection(), (0, 10));
    assert_eq!(state.selected_text().as_deref(), Some("alpha beta"));
}

#[test]
fn copy_needs_control_c_and_a_selection() {
    let mut state = SelectionState::new("abc def".to_string());
    assert_eq!(state.copy_request("c", true), None);
    state.press(4, ClickKind::Double);
    assert_eq!(state.copy_request("c", true).as_deref(), Some("def"));
    assert_eq!(state.copy_request("C", true).as_deref(), Some("def"));
    assert_eq!(state.copy_request("c", false), None);
    assert_eq!(state.copy_request("v", true), None);
}

#[test]
fn changed_content_and_lost_ownership_clear_the_selection() {
    let mut state = SelectionState::new("abc def".to_string());
    state.press(0, ClickKind::Triple);
    state.sync_content("abc def");
    assert_eq!(state.selection(), (0, 7));
    state.enforce_ownership(true);
    assert_eq!(state.selection(), (0, 7));
    state.enforce_ownership(false);
    assert_eq!(state.selection(), (0, 0));
    state.press(0, ClickKind::Triple);
    state.sync_content("xyz");
    assert_eq!(state.selection(), (0, 0));
    assert_eq!(state.selected_text(), None);
    state.press(0, ClickKind::Triple);
    state.clear();
    assert_eq!(state.selection(), (0, 0));
}

#[test]
fn grapheme_carets_count_clusters() {
    let text = "e\u{301}x";
    assert_eq!(grapheme_index_at(text, 0), 0);
    assert_eq!(grapheme_index_at(text, 3), 1);
    assert_eq!(grapheme_index_at(text, 4), 2);
    assert_eq!(grapheme_index_at(text, 1), 1);
    assert_eq!(grapheme_index_at("a中", 2), 0);
    assert_eq!(grapheme_index_at("abc", 9), 0);
}

#[test]
fn highlight_splits_matches_and_gaps() {
    let segments = highlight_segments("firefox helper", &[(0, 4), (8, 12)]);
    assert_eq!(
        segments,
        vec![
            ("fire".to_string(), true),
            ("fox ".to_string(), false),
            ("help".to_string(), true),
            ("er".to_string(), false),
        ]
    );
    assert_eq!(highlight_segments("plain", &[]), vec![("plain".to_string(), false)]);
    assert_eq!(highlight_segments("abc", &[(0, 3)]), vec![("abc".to_string(), true)]);
}

#[test]
fn highlight_segments_rejoin_to_the_text() {
    let text = "kworker/0:1 kworker/1:0 中文 kworker";
    let ranges = [(0, 7), (12, 19), (31, 38)];
    let segments = highlight_segments(text, &ranges);
    let joined: String = segments.iter().map(|(s, _)| s.as_str()).collect();
    assert_eq!(joined, text);
    assert_eq!(segments.iter().filter(|(_, hit)| *hit).count(), 3);
}

#[test]
fn highlight_falls_back_on_an_unsliceable_range() {
    assert_eq!(
        highlight_segments("h\u{e9}llo", &[(1, 2)]),
        vec![("h".to_string(), false), ("h\u{e9}llo".to_string(), false)]
    );
    assert_eq!(
        highlight_segments("abc", &[(0, 1), (2, 9)]),
        vec![("a".to_string(), true), ("b".to_string(), false), ("bc".to_string(), false)]
    );
}
