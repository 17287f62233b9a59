use cokacdir::paste::ClipboardOperation;
use cokacdir::state::{
    fuzzy_match, opposite, parse_sort_by, parse_sort_order, sort_by_from_lowercase,
    sort_by_to_string, sort_order_to_string, Dialog, DialogType, HelpState, PanelSide,
    PathCompletion, Screen, SettingsState, SortBy, SortOrder, ThemeWatchState,
};

#[test]
fn test_panel_side_equality() {
    assert_eq!(PanelSide::Left, PanelSide::Left);
    assert_eq!(PanelSide::Right, PanelSide::Right);
    assert_ne!(PanelSide::Left, PanelSide::Right);
}

#[test]
fn test_sort_by_equality() {
    assert_eq!(SortBy::Name, SortBy::Name);
    assert_eq!(SortBy::Size, SortBy::Size);
    assert_eq!(SortBy::Modified, SortBy::Modified);
}

#[test]
fn test_screen_equality() {
    assert_eq!(Screen::DualPanel, Screen::DualPanel);
    assert_eq!(Screen::FileViewer, Screen::FileViewer);
    assert_ne!(Screen::DualPanel, Screen::Help);
}

#[test]
fn test_dialog_type_equality() {
    assert_eq!(DialogType::Copy, DialogType::Copy);
    assert_eq!(DialogType::Delete, DialogType::Delete);
    assert_ne!(DialogType::Copy, DialogType::Move);
}

#[test]
fn test_clipboard_operation_equality() {
    assert_eq!(ClipboardOperation::Copy, ClipboardOperation::Copy);
    assert_eq!(ClipboardOperation::Cut, ClipboardOperation::Cut);
    assert_ne!(ClipboardOperation::Copy, ClipboardOperation::Cut);
}

#[test]
fn opposite_swaps_sides() {
    assert_eq!(opposite(PanelSide::Left), PanelSide::Right);
    assert_eq!(opposite(PanelSide::Right), PanelSide::Left);
}

#[test]
fn sort_words_are_read_whatever_their_case() {
    assert_eq!(parse_sort_by("type"), SortBy::Type);
    assert_eq!(parse_sort_by("SIZE"), SortBy::Size);
    assert_eq!(parse_sort_by("Modified"), SortBy::Modified);
    assert_eq!(parse_sort_by("date"), SortBy::Modified);
    assert_eq!(parse_sort_by("name"), SortBy::Name);
    assert_eq!(parse_sort_by("anything"), SortBy::Name);
    assert_eq!(parse_sort_by(""), SortBy::Name);
    assert_eq!(parse_sort_order("DESC"), SortOrder::Desc);
    assert_eq!(parse_sort_order("desc"), SortOrder::Desc);
    assert_eq!(parse_sort_order("asc"), SortOrder::Asc);
    assert_eq!(parse_sort_order("down"), SortOrder::Asc);
    // the exact reader does not fold case
    assert_eq!(sort_by_from_lowercase("SIZE"), SortBy::Name);
}

#[test]
fn sort_words_read_back() {
    for s in [SortBy::Name, SortBy::Type, SortBy::Size, SortBy::Modified] {
        assert_eq!(parse_sort_by(&sort_by_to_string(s)), s);
    }
    for o in [SortOrder::Asc, SortOrder::Desc] {
        assert_eq!(parse_sort_order(&sort_order_to_string(o)), o);
    }
    assert_eq!(sort_by_to_string(SortBy::Modified), "modified");
    assert_eq!(sort_order_to_string(SortOrder::Desc), "desc");
}

#[test]
fn fuzzy_match_wants_the_characters_in_order() {
    assert!(fuzzy_match("/path/to/base", "thse"));
    assert!(fuzzy_match("/path/to/base", ""));
    assert!(fuzzy_match("abc", "abc"));
    assert!(!fuzzy_match("abc", "acb"));
    assert!(!fuzzy_match("", "a"));
    assert!(!fuzzy_match("abc", "abcd"));
    assert!(fuzzy_match("aab", "ab"));
}

#[test]
fn themes_go_round() {
    let mut s = SettingsState {
        themes: vec!["dark".to_string(), "light".to_string(), "solar".to_string()],
        theme_index: 0,
    };
    assert_eq!(s.current_theme(), "dark");
    s.prev_theme();
    assert_eq!(s.theme_index, 2);
    assert_eq!(s.current_theme(), "solar");
    s.next_theme();
    assert_eq!(s.theme_index, 0);
    s.next_theme();
    assert_eq!(s.current_theme(), "light");
    s.next_theme();
    s.prev_theme();
    assert_eq!(s.current_theme(), "light");
    let mut empty = SettingsState { themes: vec![], theme_index: 0 };
    empty.next_theme();
    empty.prev_theme();
    assert_eq!(empty.theme_index, 0);
    assert_eq!(empty.current_theme(), "light");
    let stray = SettingsState { themes: vec!["dark".to_string()], theme_index: 7 };
    assert_eq!(stray.current_theme(), "light");
}

#[test]
fn help_state_and_completion_start_empty() {
    let h = HelpState::default();
    assert_eq!(h, HelpState { scroll_offset: 0, max_scroll: 0, visible_height: 0 });
    let c = PathCompletion::default();
    assert!(c.suggestions.is_empty());
    assert_eq!(c.selected_index, 0);
    assert!(!c.visible);
    let d = Dialog::plain(DialogType::Progress);
    assert_eq!(d.dialog_type, DialogType::Progress);
    assert_eq!(d.input, "");
    assert_eq!(d.selected_button, 0);
    assert!(d.selection.is_none());
    assert!(d.completion.is_none());
}

#[test]
fn theme_watch_checks_every_tenth_tick() {
    let mut w = ThemeWatchState::watch_theme(Some("/t/dark.json".to_string()), Some(5));
    let mut due_at = Vec::new();
    for tick in 1..=30 {
        if w.check_due() {
            due_at.push(tick);
        }
    }
    assert_eq!(due_at, vec![10, 20, 30]);
    assert!(!w.check_for_changes(Some(5)));
    assert!(w.check_for_changes(Some(6)));
    assert_eq!(w.last_modified, Some(6));
    assert!(w.check_for_changes(None));
    assert!(!w.check_for_changes(None));
    w.update_theme(None, None);
    assert_eq!(w.check_counter, 0);
    for _ in 0..10 {
        assert!(!w.check_due());
    }
    // the counter wraps after 255
    let mut c = ThemeWatchState::watch_theme(Some("x".to_string()), None);
    for _ in 0..255 {
        c.check_due();
    }
    assert_eq!(c.check_counter, 255);
    assert!(c.check_due());
    assert_eq!(c.check_counter, 0);
}
