use neonet_chat::api::{
    connect_peer_body, create_room_body, failure_message, http_error, parse_error, relay_step,
    send_message_body, status_is_success, ws_error, ws_host_header, ApiAction, NeoNetClient,
    RelayStep, WsFrame, WsStage,
};

#[test]
fn client_drops_trailing_slashes() {
    let c = NeoNetClient::new("http://127.0.0.1:7780///", "tok");
    assert_eq!(c.base_url(), "http://127.0.0.1:7780");
    assert_eq!(c.token(), "tok");
    let again = NeoNetClient::new(c.base_url(), "tok");
    assert_eq!(again.base_url(), c.base_url());
    assert_eq!(NeoNetClient::new("///", "t").base_url(), "");
}

#[test]
fn endpoints() {
    let c = NeoNetClient::new("http://127.0.0.1:7780/", "tok");
    assert_eq!(c.connect_peer_url(), "http://127.0.0.1:7780/v1/peers/connect");
    assert_eq!(c.identity_url(), "http://127.0.0.1:7780/v1/identity");
    assert_eq!(c.rooms_url(), "http://127.0.0.1:7780/v1/rooms");
    assert_eq!(c.list_messages_url("r1"), "http://127.0.0.1:7780/v1/rooms/r1/messages?limit=200");
    assert_eq!(c.send_message_url("r1"), "http://127.0.0.1:7780/v1/rooms/r1/messages");
    assert_eq!(c.bearer_auth_value(), "Bearer tok");
}

#[test]
fn websocket_url_and_host() {
    let c = NeoNetClient::new("http://127.0.0.1:7780", "t");
    assert_eq!(c.ws_url(), "ws://127.0.0.1:7780/v1/ws");
    assert_eq!(ws_host_header(&c.ws_url()), "127.0.0.1:7780");
    let s = NeoNetClient::new("https://example.org/base/", "t");
    assert_eq!(s.ws_url(), "wss://example.org/base/v1/ws");
    assert_eq!(ws_host_header(&s.ws_url()), "example.org");
    let odd = NeoNetClient::new("http://a/http://b", "t");
    assert_eq!(odd.ws_url(), "ws://a/ws://b/v1/ws");
    assert_eq!(ws_host_header("ws://a://b/c"), "a");
    assert_eq!(ws_host_header("no-scheme/v1/ws"), "localhost");
    assert_eq!(ws_host_header("ws://"), "");
}

#[test]
fn subscribe_message_is_json() {
    assert_eq!(
        NeoNetClient::ws_subscribe_msg("room-42"),
        r#"{"type":"subscribe","room_ids":["room-42"]}"#
    );
    assert_eq!(
        NeoNetClient::ws_subscribe_msg("a\"b\\c\n"),
        r#"{"type":"subscribe","room_ids":["a\"b\\c\n"]}"#
    );
    assert_eq!(
        NeoNetClient::ws_subscribe_msg("\u{1}\u{8}\u{c}\r\t\u{1f}é/"),
        r#"{"type":"subscribe","room_ids":["\u0001\b\f\r\t\u001fé/"]}"#
    );
}

#[test]
fn request_bodies_are_json() {
    assert_eq!(connect_peer_body("1.2.3.4:9000"), r#"{"addr":"1.2.3.4:9000"}"#);
    assert_eq!(
        create_room_body("Chat with @k:localhost", &vec!["@k:localhost".to_string()]),
        r#"{"name":"Chat with @k:localhost","room_type":"direct","members":["@k:localhost"]}"#
    );
    assert_eq!(
        create_room_body("n", &vec!["a".to_string(), "b".to_string(), "c".to_string()]),
        r#"{"name":"n","room_type":"direct","members":["a","b","c"]}"#
    );
    assert_eq!(create_room_body("n", &vec![]), r#"{"name":"n","room_type":"direct","members":[]}"#);
    assert_eq!(
        send_message_body("say \"hi\"\t", "Bob"),
        r#"{"text":"say \"hi\"\t","display_name":"Bob"}"#
    );
    let v: serde_json::Value = serde_json::from_str(&send_message_body("é\u{1}", "x")).unwrap();
    assert_eq!(v["text"], "é\u{1}");
}

#[test]
fn status_codes() {
    assert!(status_is_success(200));
    assert!(status_is_success(204));
    assert!(status_is_success(299));
    assert!(!status_is_success(199));
    assert!(!status_is_success(300));
    assert!(!status_is_success(404));
}

#[test]
fn error_texts() {
    assert_eq!(
        failure_message(ApiAction::ListMessages, "404 Not Found", "no room"),
        "List messages failed (404 Not Found): no room"
    );
    assert_eq!(failure_message(ApiAction::ConnectPeer, "500 Internal Server Error", ""), "Connect peer failed (500 Internal Server Error): ");
    assert_eq!(failure_message(ApiAction::GetIdentity, "401 Unauthorized", "x"), "Get identity failed (401 Unauthorized): x");
    assert_eq!(failure_message(ApiAction::CreateRoom, "400 Bad Request", "x"), "Create room failed (400 Bad Request): x");
    assert_eq!(failure_message(ApiAction::SendMessage, "403 Forbidden", "x"), "Send message failed (403 Forbidden): x");
    assert_eq!(http_error("timeout"), "HTTP error: timeout");
    assert_eq!(parse_error("eof"), "Parse error: eof");
    assert_eq!(ws_error(WsStage::BuildRequest, "e"), "WS request build error: e");
    assert_eq!(ws_error(WsStage::Connect, "e"), "WebSocket connect error: e");
    assert_eq!(ws_error(WsStage::Subscribe, "e"), "WS send error: e");
}

#[test]
fn relay_steps() {
    assert!(matches!(relay_step(WsFrame::Text(Some(7u8))), RelayStep::Forward(7)));
    assert!(matches!(relay_step(WsFrame::<u8>::Text(None)), RelayStep::Skip));
    assert!(matches!(relay_step(WsFrame::<u8>::Close), RelayStep::Stop));
    assert!(matches!(relay_step(WsFrame::<u8>::Failed), RelayStep::Stop));
    assert!(matches!(relay_step(WsFrame::<u8>::Ended), RelayStep::Stop));
    assert!(matches!(relay_step(WsFrame::<u8>::Other), RelayStep::Skip));
}

#[test]
fn relay_passes_events_before_the_first_stop() {
    let frames = vec![
        WsFrame::Text(Some(1u8)),
        WsFrame::Other,
        WsFrame::Text(None),
        WsFrame::Text(Some(2)),
        WsFrame::Close,
        WsFrame::Text(Some(3)),
    ];
    let mut passed = Vec::new();
    for f in frames {
        match relay_step(f) {
            RelayStep::Forward(e) => passed.push(e),
            RelayStep::Stop => break,
            RelayStep::Skip => {}
        }
    }
    assert_eq!(passed, vec![1, 2]);
}

#[test]
fn subscribe_message_reads_back() {
    for room in ["plain", "q\"uo\\te", "ctl\u{0}\u{7}\u{1b}\n", "ünï/cødé 🎉", ""] {
        let v: serde_json::Value = serde_json::from_str(&NeoNetClient::ws_subscribe_msg(room)).unwrap();
        let obj = v.as_object().unwrap();
        assert_eq!(obj.len(), 2);
        assert_eq!(obj["type"], "subscribe");
        let ids = obj["room_ids"].as_array().unwrap();
        assert_eq!(ids.len(), 1);
        assert_eq!(ids[0].as_str().unwrap(), room);
    }
}
