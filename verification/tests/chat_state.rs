use neonet_chat::api::{failure_message, ApiAction, DagEvent, WsEvent};
use neonet_chat::app::{
    chat_message_from_dag_event, chat_message_from_ws_event, dag_event_to_chat_message,
    ws_event_to_chat_message, App, ChatMessage, KeyCode, KeyPress, WsReaction,
};
use neonet_chat::json::{EventContent, JsonField};

fn content(pairs: &[(&str, Option<&str>)]) -> EventContent {
    EventContent {
        members: pairs
            .iter()
            .map(|(k, v)| {
                (
                    k.to_string(),
                    match v {
                        Some(s) => JsonField::Str(s.to_string()),
                        None => JsonField::Other,
                    },
                )
            })
            .collect(),
    }
}

fn dag(kind: &str, author: Option<&str>, c: EventContent, redacted: bool) -> DagEvent {
    DagEvent {
        event_id: "ev".to_string(),
        author: author.map(|a| a.to_string()),
        kind: kind.to_string(),
        content: c,
        ts_hint: 0,
        edited: false,
        redacted,
    }
}

fn ws(ty: &str, room: Option<&str>, author: Option<&str>, c: Option<EventContent>, status: Option<&str>) -> WsEvent {
    WsEvent {
        event_type: ty.to_string(),
        room_id: room.map(|s| s.to_string()),
        event_id: None,
        author: author.map(|s| s.to_string()),
        kind: None,
        content: c,
        ts_hint: Some(0),
        status: status.map(|s| s.to_string()),
    }
}

fn is_shown_time(s: &str) -> bool {
    if s == "--:--" {
        return true;
    }
    let b = s.as_bytes();
    b.len() == 5
        && b[2] == b':'
        && b.iter().enumerate().all(|(i, c)| i == 2 || c.is_ascii_digit())
        && (b[0] - b'0') * 10 + (b[1] - b'0') < 24
        && (b[3] - b'0') * 10 + (b[4] - b'0') < 60
}

fn key(code: KeyCode) -> KeyPress {
    KeyPress { code, ctrl: false }
}

fn app() -> App {
    App::new("alice".to_string(), "room1".to_string(), "me".to_string())
}

#[test]
fn new_app_is_empty_and_waiting() {
    let a = app();
    assert_eq!(a.pseudo, "alice");
    assert_eq!(a.room_id, "room1");
    assert_eq!(a.own_address, "me");
    assert!(!a.synced);
    assert!(a.messages.is_empty());
    assert_eq!(a.input, "");
    assert!(!a.should_quit);
}

#[test]
fn add_message_appends_in_order() {
    let mut a = app();
    a.add_message(ChatMessage::system("one".to_string()));
    a.add_message(ChatMessage::system("two".to_string()));
    assert_eq!(a.messages.len(), 2);
    assert_eq!(a.messages[0].text, "one");
    assert_eq!(a.messages[1].text, "two");
    assert_eq!(a.messages[1].display_name, "system");
    assert_eq!(a.messages[1].timestamp, "--:--");
}

#[test]
fn display_name_prefers_content_then_author_then_placeholder() {
    let e = dag("message", Some("abcdefghijkl"), content(&[("text", Some("hi")), ("display_name", Some("Bob"))]), false);
    let m = chat_message_from_dag_event(&e, "12:34".to_string()).unwrap();
    assert_eq!(m.display_name, "Bob");
    assert_eq!(m.text, "hi");
    assert_eq!(m.timestamp, "12:34");

    let e = dag("message", Some("abcdefghijkl"), content(&[("text", Some("hi")), ("display_name", Some(""))]), false);
    assert_eq!(chat_message_from_dag_event(&e, "x".to_string()).unwrap().display_name, "abcdefgh");

    let e = dag("message", Some("abcdefghijkl"), content(&[("text", Some("hi")), ("display_name", None)]), false);
    assert_eq!(chat_message_from_dag_event(&e, "x".to_string()).unwrap().display_name, "abcdefgh");

    let e = dag("message", Some("éàü"), content(&[("text", Some("hi"))]), false);
    assert_eq!(chat_message_from_dag_event(&e, "x".to_string()).unwrap().display_name, "éàü");

    let e = dag("message", None, content(&[("text", Some("hi"))]), false);
    assert_eq!(chat_message_from_dag_event(&e, "x".to_string()).unwrap().display_name, "???");
}

#[test]
fn dag_event_without_string_text_gives_no_line() {
    let e = dag("message", Some("a"), content(&[("text", None)]), false);
    assert!(dag_event_to_chat_message(&e).is_none());
    let e = dag("message", Some("a"), content(&[]), false);
    assert!(dag_event_to_chat_message(&e).is_none());
}

#[test]
fn dag_event_time_is_clock_or_placeholder() {
    let e = dag("message", Some("a"), content(&[("text", Some("hi"))]), false);
    let m = dag_event_to_chat_message(&e).unwrap();
    assert!(is_shown_time(&m.timestamp));
    assert_eq!(m.timestamp.len(), 5);
    assert_eq!(m.text, "hi");
    let mut far = dag("message", Some("a"), content(&[("text", Some("hi"))]), false);
    far.ts_hint = i64::MAX;
    assert_eq!(dag_event_to_chat_message(&far).unwrap().timestamp, "--:--");
}

#[test]
fn ws_event_lines_only_for_new_messages_with_text() {
    let e = ws("new_message", Some("room1"), Some("peer"), Some(content(&[("text", Some("yo"))])), None);
    let m = chat_message_from_ws_event(&e, "01:02".to_string()).unwrap();
    assert_eq!(m.text, "yo");
    assert_eq!(m.display_name, "peer");
    assert_eq!(m.timestamp, "01:02");
    assert!(is_shown_time(&ws_event_to_chat_message(&e).unwrap().timestamp));

    let e = ws("edit", Some("room1"), Some("peer"), Some(content(&[("text", Some("yo"))])), None);
    assert!(ws_event_to_chat_message(&e).is_none());
    let e = ws("new_message", Some("room1"), Some("peer"), None, None);
    assert!(ws_event_to_chat_message(&e).is_none());
    let e = ws("new_message", Some("room1"), Some("peer"), Some(content(&[("body", Some("yo"))])), None);
    assert!(ws_event_to_chat_message(&e).is_none());
}

#[test]
fn load_history_keeps_unredacted_messages_with_text() {
    let mut a = app();
    a.add_message(ChatMessage::system("before".to_string()));
    let events = vec![
        dag("message", Some("u1"), content(&[("text", Some("first"))]), false),
        dag("reaction", Some("u1"), content(&[("text", Some("nope"))]), false),
        dag("message", Some("u1"), content(&[("text", Some("gone"))]), true),
        dag("message", Some("u1"), content(&[("other", Some("x"))]), false),
        dag("message", Some("u2"), content(&[("text", Some("second")), ("display_name", Some("Zed"))]), false),
    ];
    a.load_history(&events);
    let texts: Vec<&str> = a.messages.iter().map(|m| m.text.as_str()).collect();
    assert_eq!(texts, vec!["before", "first", "second"]);
    assert_eq!(a.messages[2].display_name, "Zed");
    assert_eq!(a.messages[1].display_name, "u1");
    assert!(!a.synced);
}

#[test]
fn history_result_ok_marks_synced() {
    let mut a = app();
    a.apply_history_result(Ok(vec![dag("message", Some("u"), content(&[("text", Some("t"))]), false)]));
    assert!(a.synced);
    assert_eq!(a.messages.len(), 1);
}

#[test]
fn history_result_404_means_syncing() {
    let mut a = app();
    a.apply_history_result(Err("List messages failed (404 Not Found): ".to_string()));
    assert!(!a.synced);
    assert_eq!(a.messages.len(), 1);
    assert_eq!(a.messages[0].text, "Room syncing, waiting for peers...");
    assert_eq!(a.messages[0].display_name, "system");
}

#[test]
fn history_result_other_error_is_shown() {
    let mut a = app();
    a.apply_history_result(Err("HTTP error: refused".to_string()));
    assert!(a.synced);
    assert_eq!(a.messages[0].text, "Failed to load history: HTTP error: refused");
    assert_eq!(a.messages[0].timestamp, "--:--");
}

#[test]
fn ws_failure_is_reported() {
    let mut a = app();
    a.report_ws_failure("boom");
    assert_eq!(a.messages[0].text, "WebSocket failed: boom");
}

#[test]
fn own_events_are_not_shown() {
    let mut a = app();
    let e = ws("new_message", Some("room1"), Some("me"), Some(content(&[("text", Some("echo"))])), None);
    assert_eq!(a.handle_ws_event(&e), WsReaction::Ignored);
    assert!(a.messages.is_empty());
}

#[test]
fn peer_events_are_shown() {
    let mut a = app();
    let e = ws("new_message", Some("room1"), Some("peer"), Some(content(&[("text", Some("hello"))])), None);
    assert_eq!(a.handle_ws_event(&e), WsReaction::Shown);
    assert_eq!(a.messages.len(), 1);
    assert_eq!(a.messages[0].text, "hello");
    let e = ws("typing", Some("room1"), Some("peer"), None, None);
    assert_eq!(a.handle_ws_event(&e), WsReaction::Ignored);
    assert_eq!(a.messages.len(), 1);
}

#[test]
fn sync_status_starts_resync_only_for_own_room_when_waiting() {
    let mut a = app();
    a.add_message(ChatMessage::system("Room syncing, waiting for peers...".to_string()));
    let other = ws("sync_status", Some("room2"), None, None, Some("synced"));
    assert_eq!(a.handle_ws_event(&other), WsReaction::Ignored);
    let syncing = ws("sync_status", Some("room1"), None, None, Some("syncing"));
    assert_eq!(a.handle_ws_event(&syncing), WsReaction::Ignored);
    assert_eq!(a.messages.len(), 1);
    let synced = ws("sync_status", Some("room1"), None, None, Some("synced"));
    assert_eq!(a.handle_ws_event(&synced), WsReaction::Resync);
    assert!(a.synced);
    assert!(a.messages.is_empty());
    assert_eq!(a.handle_ws_event(&synced), WsReaction::Ignored);
}

#[test]
fn finish_resync_shows_history_then_note() {
    let mut a = app();
    a.begin_resync();
    let events = vec![dag("message", Some("u"), content(&[("text", Some("old"))]), false)];
    a.finish_resync(Some(&events));
    assert_eq!(a.messages.len(), 2);
    assert_eq!(a.messages[0].text, "old");
    assert_eq!(a.messages[1].text, "Room synced.");

    let mut b = app();
    b.begin_resync();
    b.finish_resync(None);
    assert_eq!(b.messages.len(), 1);
    assert_eq!(b.messages[0].text, "Room synced.");
    assert_eq!(b.messages[0].display_name, "system");
}

#[test]
fn sync_retry_is_due_after_three_seconds_while_waiting() {
    let mut a = app();
    assert!(!a.sync_retry_due(2999));
    assert!(a.sync_retry_due(3000));
    a.synced = true;
    assert!(!a.sync_retry_due(10_000));
}

#[test]
fn typing_and_enter_sends_the_line() {
    let mut a = app();
    for c in "hi!".chars() {
        assert_eq!(a.handle_key_at(key(KeyCode::Char(c)), "09:00".to_string()), None);
    }
    assert_eq!(a.input, "hi!");
    let sent = a.handle_key_at(key(KeyCode::Enter), "09:15".to_string());
    assert_eq!(sent, Some("hi!".to_string()));
    assert_eq!(a.input, "");
    assert_eq!(a.messages.len(), 1);
    assert_eq!(a.messages[0].display_name, "alice");
    assert_eq!(a.messages[0].timestamp, "09:15");
    assert_eq!(a.messages[0].text, "hi!");
}

#[test]
fn enter_on_empty_input_does_nothing() {
    let mut a = app();
    assert_eq!(a.handle_key(key(KeyCode::Enter)), None);
    assert!(a.messages.is_empty());
}

#[test]
fn handle_key_stamps_with_clock_time() {
    let mut a = app();
    a.handle_key(key(KeyCode::Char('x')));
    assert_eq!(a.handle_key(key(KeyCode::Enter)), Some("x".to_string()));
    let ts = &a.messages[0].timestamp;
    assert!(is_shown_time(ts) && ts != "--:--");
}

#[test]
fn backspace_takes_back_a_character() {
    let mut a = app();
    a.handle_key_at(key(KeyCode::Char('a')), String::new());
    a.handle_key_at(key(KeyCode::Char('é')), String::new());
    a.handle_key_at(key(KeyCode::Backspace), String::new());
    assert_eq!(a.input, "a");
    a.handle_key_at(key(KeyCode::Backspace), String::new());
    a.handle_key_at(key(KeyCode::Backspace), String::new());
    assert_eq!(a.input, "");
}

#[test]
fn control_c_quits_and_control_keys_type_nothing() {
    let mut a = app();
    a.handle_key_at(KeyPress { code: KeyCode::Char('x'), ctrl: true }, String::new());
    assert_eq!(a.input, "");
    assert!(!a.should_quit);
    a.handle_key_at(KeyPress { code: KeyCode::Char('c'), ctrl: true }, String::new());
    assert!(a.should_quit);
    assert_eq!(a.input, "");
    a.handle_key_at(key(KeyCode::Other), String::new());
    assert!(a.should_quit);
}

#[test]
fn not_found_answer_to_history_means_syncing() {
    let mut a = app();
    let e = failure_message(ApiAction::ListMessages, "404 Not Found", "{\"error\":\"no room\"}");
    a.apply_history_result(Err(e));
    assert!(!a.synced);
    assert_eq!(a.messages[0].text, "Room syncing, waiting for peers...");
}

#[test]
fn event_lines_show_their_own_time() {
    let mut e = dag("message", Some("a"), content(&[("text", Some("hi"))]), false);
    e.ts_hint = 1_000;
    assert!(is_shown_time(&dag_event_to_chat_message(&e).unwrap().timestamp));
    assert_ne!(dag_event_to_chat_message(&e).unwrap().timestamp, "--:--");
    let mut w = ws("new_message", Some("room1"), Some("p"), Some(content(&[("text", Some("hi"))])), None);
    w.ts_hint = Some(i64::MAX);
    assert_eq!(ws_event_to_chat_message(&w).unwrap().timestamp, "--:--");
    w.ts_hint = None;
    assert_ne!(ws_event_to_chat_message(&w).unwrap().timestamp, "--:--");
}

#[test]
fn history_in_parts_equals_history_at_once() {
    let xs = vec![dag("message", Some("u1"), content(&[("text", Some("a"))]), false)];
    let ys = vec![
        dag("message", Some("u2"), content(&[("text", Some("b"))]), true),
        dag("message", Some("u3"), content(&[("text", Some("c"))]), false),
    ];
    let mut parts = app();
    parts.load_history(&xs);
    parts.load_history(&ys);
    let mut once = app();
    once.load_history(&[xs.clone(), ys.clone()].concat());
    let view = |a: &App| a.messages.iter().map(|m| (m.timestamp.clone(), m.display_name.clone(), m.text.clone())).collect::<Vec<_>>();
    assert_eq!(view(&parts), view(&once));
}

#[test]
fn pushed_and_history_lines_agree() {
    let c = || content(&[("text", Some("same")), ("display_name", Some("N"))]);
    let d = dag("message", Some("auth"), c(), false);
    let w = ws("new_message", Some("room1"), Some("auth"), Some(c()), None);
    let mut w = w;
    w.ts_hint = Some(0);
    let a = dag_event_to_chat_message(&d).unwrap();
    let b = ws_event_to_chat_message(&w).unwrap();
    assert_eq!((a.timestamp, a.display_name, a.text), (b.timestamp, b.display_name, b.text));
}
