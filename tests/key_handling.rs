use bilicli::api::{csrf_token, BaseUserInfo, ModeInfo, SendDanmuData, SendDanmuResponse, User};
use bilicli::{App, AppState, InputMode, Key, KeyAction, Outbound, PhaseEvent, SliderBarState, TuiState};

fn type_text(app: &mut App, state: &mut TuiState, text: &str) {
    for c in text.chars() {
        app.handle_events(Key::Char(c), state);
    }
}

fn echoed() -> SendDanmuData {
    SendDanmuData {
        mode_info: ModeInfo {
            mode: 0,
            user: User { uid: 1, base: BaseUserInfo { name: "me".to_string(), face: String::new() } },
        },
    }
}

#[test]
fn send_without_credential_fails_locally() {
    let mut app = App::new();
    let state = TuiState::new(7, None);
    app.will_send_message.push("hello".to_string());
    let out = app.send_danmu(&state);
    assert!(matches!(out, Outbound::Idle));
    assert_eq!(app.err_text.as_deref(), Some("未登录"));
    assert!(app.will_send_message.is_empty());
}

#[test]
fn send_with_credential_hands_out_the_line() {
    let mut app = App::new();
    let state = TuiState::new(7, Some("bili_jct=t".to_string()));
    app.err_text = Some("old".to_string());
    app.will_send_message.push("first".to_string());
    app.will_send_message.push("second".to_string());
    match app.send_danmu(&state) {
        Outbound::Send { room_id, content, cookie } => {
            assert_eq!(room_id, 7);
            assert_eq!(content, "first");
            assert_eq!(cookie, "bili_jct=t");
        }
        Outbound::Idle => panic!("expected a send"),
    }
    assert_eq!(app.err_text, None);
    assert_eq!(app.will_send_message, vec!["second".to_string()]);
}

#[test]
fn nothing_waiting_means_idle() {
    let mut app = App::new();
    let state = TuiState::new(7, None);
    assert!(matches!(app.send_danmu(&state), Outbound::Idle));
    assert_eq!(app.err_text, None);
}

#[test]
fn finish_send_keeps_failure_text() {
    let mut app = App::new();
    app.finish_send(Err("无法找到 csrf token".to_string()));
    assert_eq!(app.err_text.as_deref(), Some("无法找到 csrf token"));
    app.err_text = None;
    app.finish_send(Ok(echoed()));
    assert_eq!(app.err_text, None);
}

#[test]
fn enter_needs_a_credential() {
    let mut app = App::new();
    let mut state = TuiState::new(7, None);
    assert_eq!(app.handle_events(Key::Enter, &mut state), KeyAction::Ignore);
    assert_eq!(app.input_mode, InputMode::Normal);
    let mut state = TuiState::new(7, Some("c".to_string()));
    assert_eq!(app.handle_events(Key::Enter, &mut state), KeyAction::StartEditing);
    assert_eq!(app.input_mode, InputMode::Editing);
}

#[test]
fn typed_line_is_submitted_and_cleared() {
    let mut app = App::new();
    let mut state = TuiState::new(7, Some("c".to_string()));
    app.handle_events(Key::Enter, &mut state);
    type_text(&mut app, &mut state, "gg wp");
    app.handle_events(Key::Backspace, &mut state);
    assert_eq!(app.textarea.text(), "gg w");
    assert_eq!(app.handle_events(Key::Enter, &mut state), KeyAction::Submit);
    assert_eq!(app.will_send_message, vec!["gg w".to_string()]);
    assert!(app.textarea.is_empty());
    assert_eq!(app.input_mode, InputMode::Normal);
}

#[test]
fn empty_line_is_not_submitted() {
    let mut app = App::new();
    let mut state = TuiState::new(7, Some("c".to_string()));
    app.handle_events(Key::Enter, &mut state);
    app.handle_events(Key::Enter, &mut state);
    assert!(app.will_send_message.is_empty());
    assert_eq!(app.input_mode, InputMode::Editing);
}

#[test]
fn escape_drops_the_line() {
    let mut app = App::new();
    let mut state = TuiState::new(7, Some("c".to_string()));
    app.handle_events(Key::Enter, &mut state);
    type_text(&mut app, &mut state, "qqq");
    assert_eq!(state.state, AppState::Running);
    app.handle_events(Key::Esc, &mut state);
    assert!(app.textarea.is_empty());
    assert_eq!(app.input_mode, InputMode::Normal);
    assert!(app.will_send_message.is_empty());
}

#[test]
fn typing_stops_at_budget() {
    let mut app = App::new();
    let mut state = TuiState::new(7, Some("c".to_string()));
    app.handle_events(Key::Enter, &mut state);
    type_text(&mut app, &mut state, &"x".repeat(55));
    assert_eq!(app.textarea.len(), 40);
}

#[test]
fn quit_keys_drive_the_phase() {
    let mut app = App::new();
    let mut state = TuiState::new(7, None);
    assert_eq!(app.handle_events(Key::Char('q'), &mut state), KeyAction::Phase(PhaseEvent::QuitRequest));
    assert_eq!(state.state, AppState::Quitting);
    // navigation is off while confirming
    assert_eq!(app.handle_events(Key::Down, &mut state), KeyAction::Ignore);
    app.handle_events(Key::Char('n'), &mut state);
    assert_eq!(state.state, AppState::Running);
    app.handle_events(Key::Char('q'), &mut state);
    app.handle_events(Key::Char('y'), &mut state);
    assert_eq!(state.state, AppState::Quit);
}

#[test]
fn navigation_keys_move_tabs_and_scroll() {
    let mut app = App::default();
    let mut state = TuiState::new(7, None);
    app.handle_events(Key::Down, &mut state);
    assert_eq!(app.tabs.selected, 1);
    app.handle_events(Key::Up, &mut state);
    app.handle_events(Key::Up, &mut state);
    assert_eq!(app.tabs.selected, 5);
    app.handle_events(Key::Char('t'), &mut state);
    assert_eq!(state.slider_bar_state, SliderBarState::Normal);
    app.tabs.tabs[5].set_state_content_length(3);
    app.handle_events(Key::Char('s'), &mut state);
    assert_eq!(app.tabs.tabs[5].scroll(), 1);
    app.handle_events(Key::Char('w'), &mut state);
    assert_eq!(app.tabs.tabs[5].scroll(), 0);
    assert_eq!(app.handle_events(Key::Other, &mut state), KeyAction::Ignore);
}

#[test]
fn csrf_token_is_read_from_its_entry() {
    assert_eq!(csrf_token("SESSDATA=abc; bili_jct=0123abcd; DedeUserID=9").unwrap(), "0123abcd");
    assert_eq!(csrf_token("bili_jct=first; bili_jct=second").unwrap(), "first");
    assert_eq!(csrf_token("bili_jct=a=b").unwrap(), "a");
    assert_eq!(csrf_token("a=1; bili_jct=").unwrap(), "");
}

#[test]
fn csrf_token_missing_is_an_error() {
    assert_eq!(csrf_token("SESSDATA=abc").unwrap_err(), "无法找到 csrf token");
    assert_eq!(csrf_token("").unwrap_err(), "无法找到 csrf token");
    assert_eq!(csrf_token("xbili_jct=1").unwrap_err(), "无法找到 csrf token");
    assert_eq!(csrf_token("a=1;bili_jct=2").unwrap_err(), "无法找到 csrf token");
}

#[test]
fn send_response_code_and_data_decide() {
    let ok = SendDanmuResponse { code: 0, message: String::new(), data: Some(echoed()) };
    assert_eq!(ok.into_result().unwrap().mode_info.user.uid, 1);
    let bad = SendDanmuResponse { code: 10030, message: "msg in 1s".to_string(), data: None };
    assert_eq!(bad.into_result().unwrap_err(), "msg in 1s");
    let empty = SendDanmuResponse { code: 0, message: "ok".to_string(), data: None };
    assert_eq!(empty.into_result().unwrap_err(), "ok");
}
