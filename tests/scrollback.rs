use bilicli::tabs::filter_log;
use bilicli::{MsgType, Tab, TabKind, Tabs, TuiState};

fn log_of(kinds: &[MsgType]) -> Vec<(MsgType, String)> {
    kinds.iter().enumerate().map(|(i, t)| (*t, format!("r{}", i))).collect()
}

#[test]
fn all_tab_drops_viewer_actions_in_order() {
    let log = log_of(&[
        MsgType::UserAction,
        MsgType::Danmu,
        MsgType::Gift,
        MsgType::UserAction,
        MsgType::SuperChat,
        MsgType::GuardBuy,
        MsgType::UserAction,
    ]);
    let shown = filter_log(&log, TabKind::All);
    let names: Vec<&str> = shown.iter().map(|(_, p)| p.as_str()).collect();
    assert_eq!(names, vec!["r1", "r2", "r4", "r5"]);
    assert!(shown.iter().all(|(t, _)| *t != MsgType::UserAction));
}

#[test]
fn category_tabs_keep_only_their_category() {
    let log = log_of(&[MsgType::Danmu, MsgType::Gift, MsgType::Danmu, MsgType::UserAction]);
    let danmu = filter_log(&log, TabKind::Danmu);
    assert_eq!(danmu, vec![(MsgType::Danmu, "r0".to_string()), (MsgType::Danmu, "r2".to_string())]);
    assert_eq!(filter_log(&log, TabKind::Gift).len(), 1);
    assert_eq!(filter_log(&log, TabKind::SuperChat).len(), 0);
    assert_eq!(filter_log(&log, TabKind::Captain).len(), 0);
    assert_eq!(filter_log(&log, TabKind::Enter), vec![(MsgType::UserAction, "r3".to_string())]);
}

#[test]
fn empty_log_filters_to_nothing() {
    assert!(filter_log(&Vec::new(), TabKind::All).is_empty());
}

#[test]
fn scroll_up_stops_at_top() {
    let mut tab = Tab::new(TabKind::All);
    tab.scroll_up();
    assert_eq!(tab.scroll(), 0);
}

#[test]
fn scroll_down_stops_at_content_length() {
    let mut tab = Tab::new(TabKind::All);
    tab.set_state_content_length(2);
    tab.scroll_down();
    tab.scroll_down();
    assert_eq!(tab.scroll(), 2);
    tab.scroll_down();
    assert_eq!(tab.scroll(), 2);
    tab.scroll_up();
    assert_eq!(tab.scroll(), 1);
}

#[test]
fn shrinking_content_clamps_offset() {
    let mut tab = Tab::new(TabKind::Gift);
    tab.set_state_content_length(5);
    for _ in 0..5 {
        tab.scroll_down();
    }
    assert_eq!(tab.scroll(), 5);
    tab.set_state_content_length(3);
    assert_eq!(tab.scroll(), 3);
    assert_eq!(tab.content_length, 3);
}

#[test]
fn follow_snaps_to_bottom_on_growth() {
    let mut tab = Tab::new(TabKind::All);
    // 30 rows in an area 12 rows tall: 10 visible rows, 20 rows to scroll
    tab.follow(30, 12);
    assert_eq!(tab.content_length, 20);
    assert_eq!(tab.scroll(), 20);
    assert_eq!(tab.viewport_content_length, 10);
    assert!(!tab.should_scroll_down(30, 12));
    // three more rows arrive
    tab.follow(33, 12);
    assert_eq!(tab.scroll(), 23);
    // nothing new: nothing moves
    tab.follow(33, 12);
    assert_eq!(tab.scroll(), 23);
}

#[test]
fn follow_keeps_manual_scroll_until_growth() {
    let mut tab = Tab::new(TabKind::Danmu);
    tab.follow(30, 12);
    tab.scroll_up();
    tab.scroll_up();
    assert_eq!(tab.scroll(), 18);
    tab.follow(30, 12);
    assert_eq!(tab.scroll(), 18);
    tab.follow(31, 12);
    assert_eq!(tab.scroll(), 21);
}

#[test]
fn follow_with_content_that_fits_stays_at_top() {
    let mut tab = Tab::new(TabKind::All);
    tab.follow(5, 12);
    assert_eq!(tab.scroll(), 0);
    assert_eq!(tab.content_length, 0);
    // an area shorter than its border shows no row at all
    tab.follow(6, 1);
    assert_eq!(tab.content_length, 6);
    assert_eq!(tab.scroll(), 6);
}

#[test]
fn follow_caps_offset_at_u16_max() {
    let mut tab = Tab::new(TabKind::All);
    tab.follow(100_000, 12);
    assert_eq!(tab.content_length, 99_990);
    assert_eq!(tab.scroll(), u16::MAX);
}

#[test]
fn should_scroll_up_when_area_holds_everything() {
    let mut tab = Tab::new(TabKind::All);
    tab.set_state_content_length(4);
    tab.scroll_down();
    assert!(tab.should_scroll_up(10, 4));
    assert!(!tab.should_scroll_up(3, 4));
}

#[test]
fn tab_titles() {
    assert_eq!(Tab::new(TabKind::All).title(), "全部");
    assert_eq!(Tab::new(TabKind::Danmu).title(), "弹幕");
    assert_eq!(Tab::new(TabKind::SuperChat).title(), " SC ");
    assert_eq!(Tab::new(TabKind::Gift).title(), "礼物");
    assert_eq!(Tab::new(TabKind::Captain).title(), "上舰");
    assert_eq!(Tab::new(TabKind::Enter).title(), "入场");
}

#[test]
fn tab_navigation_wraps_both_ways() {
    let mut tabs = Tabs::new();
    assert_eq!(tabs.selected, 0);
    tabs.previous_tab();
    assert_eq!(tabs.selected, 5);
    assert_eq!(tabs.selected_tab().kind, TabKind::Enter);
    tabs.next_tab();
    assert_eq!(tabs.selected, 0);
    for _ in 0..6 {
        tabs.next_tab();
    }
    assert_eq!(tabs.selected, 0);
}

#[test]
fn show_selected_filters_and_follows() {
    let mut tabs = Tabs::default();
    let mut log = log_of(&[MsgType::Danmu; 8]);
    log.push((MsgType::UserAction, "join".to_string()));
    let shown = tabs.show_selected(&log, 5);
    assert_eq!(shown.len(), 8);
    assert_eq!(tabs.selected_tab().scroll(), 5);
    tabs.scroll_up();
    assert_eq!(tabs.selected_tab().scroll(), 4);
    tabs.scroll_down();
    tabs.scroll_down();
    assert_eq!(tabs.selected_tab().scroll(), 5);
    // other tabs are untouched
    assert_eq!(tabs.tabs[1].rows, 0);
}

#[test]
fn appended_records_come_into_view_once() {
    let mut state = TuiState::new(7, None);
    let mut tabs = Tabs::new();
    for i in 0..10 {
        state.append_event(MsgType::Danmu, format!("d{}", i));
    }
    tabs.show_selected(&state.messages, 6);
    assert_eq!(tabs.selected_tab().scroll(), 6);
    // viewer actions do not grow the mixed feed
    state.append_event(MsgType::UserAction, "join".to_string());
    tabs.show_selected(&state.messages, 6);
    assert_eq!(tabs.selected_tab().scroll(), 6);
    for i in 0..4 {
        state.append_event(MsgType::Gift, format!("g{}", i));
    }
    let shown = tabs.show_selected(&state.messages, 6);
    assert_eq!(shown.len(), 14);
    // bottom edge at the content end: offset plus the 4 visible rows
    assert_eq!(tabs.selected_tab().scroll() as usize + 4, shown.len());
    tabs.show_selected(&state.messages, 6);
    assert_eq!(tabs.selected_tab().scroll(), 10);
}

#[test]
fn all_tab_follows_append_order() {
    let mut state = TuiState::new(7, None);
    let kinds = [MsgType::Gift, MsgType::UserAction, MsgType::Danmu, MsgType::SuperChat, MsgType::UserAction];
    for (i, t) in kinds.iter().enumerate() {
        state.append_event(*t, format!("e{}", i));
        let shown = filter_log(&state.messages, TabKind::All);
        let expected: Vec<(MsgType, String)> = state
            .messages
            .iter()
            .filter(|(t, _)| *t != MsgType::UserAction)
            .cloned()
            .collect();
        assert_eq!(shown, expected);
    }
    let names: Vec<String> = filter_log(&state.messages, TabKind::All).into_iter().map(|(_, p)| p).collect();
    assert_eq!(names, vec!["e0", "e2", "e3"]);
}
