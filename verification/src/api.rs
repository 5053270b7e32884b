//! The daemon's HTTP and WebSocket vocabulary: the records it answers with,
//! the endpoints and request bodies the client sends, and the error texts
//! the client reports.
use vstd::prelude::*;
use crate::json::{EventContent, json_string_literal, push_json_str, json_escape, json_unescape, lemma_json_unescape_escape};
use crate::text::{
    chars_of, string_of, push_text, starts_with, find_from, replace_all, trim_end_char,
    trim_end_matches_char, replace_text, find_text,
};

verus! {

// ───────────────────────────── records ─────────────────────────────

/// Answer to a room creation.
pub struct CreateRoomResponse {
    pub room_id: String,
}

/// One event of a room's history.
#[derive(Clone, Debug)]
pub struct DagEvent {
    pub event_id: String,
    pub author: Option<String>,
    pub kind: String,
    pub content: EventContent,
    pub ts_hint: i64,
    pub edited: bool,
    pub redacted: bool,
}

/// Answer to a sent message.
pub struct SendMessageResponse {
    pub event_id: String,
    pub ts_hint: i64,
}

/// One event pushed over the WebSocket. `event_type` is the JSON member
/// `type`; `status` is present on `sync_status` events
/// ("syncing" | "synced" | "error").
pub struct WsEvent {
    pub event_type: String,
    pub room_id: Option<String>,
    pub event_id: Option<String>,
    pub author: Option<String>,
    pub kind: Option<String>,
    pub content: Option<EventContent>,
    pub ts_hint: Option<i64>,
    pub status: Option<String>,
}

/// Answer to an identity query.
pub struct IdentityResponse {
    pub address: String,
}

// ──────────────────────────── request bodies ────────────────────────────

/// JSON string literals of `items`, separated by commas.
pub open spec fn json_string_list(items: Seq<Seq<char>>) -> Seq<char>
    decreases items.len(),
{
    if items.len() == 0 {
        Seq::empty()
    } else if items.len() == 1 {
        json_string_literal(items[0])
    } else {
        json_string_list(items.drop_last()) + ","@ + json_string_literal(items.last())
    }
}

/// Body of a peer connection request: `{"addr":…}`.
pub open spec fn connect_peer_json(addr: Seq<char>) -> Seq<char> {
    "{\"addr\":"@ + json_string_literal(addr) + "}"@
}

/// Body of a room creation: `{"name":…,"room_type":"direct","members":[…]}`.
pub open spec fn create_room_json(name: Seq<char>, members: Seq<Seq<char>>) -> Seq<char> {
    "{\"name\":"@ + json_string_literal(name) + ",\"room_type\":\"direct\",\"members\":["@
        + json_string_list(members) + "]}"@
}

/// Body of a message: `{"text":…,"display_name":…}`.
pub open spec fn send_message_json(text: Seq<char>, display_name: Seq<char>) -> Seq<char> {
    "{\"text\":"@ + json_string_literal(text) + ",\"display_name\":"@ + json_string_literal(
        display_name,
    ) + "}"@
}

/// WebSocket subscription to one room: `{"type":"subscribe","room_ids":[…]}`.
pub open spec fn ws_subscribe_json(room_id: Seq<char>) -> Seq<char> {
    "{\"type\":\"subscribe\",\"room_ids\":["@ + json_string_literal(room_id) + "]}"@
}

/// The subscription message is the JSON object
/// `{"type":"subscribe","room_ids":["…"]}` whose one string reads back as
/// the room id it was made for, whatever characters that id holds.
pub proof fn law_subscribe_message_reads_back(room_id: Seq<char>)
    ensures
        ws_subscribe_json(room_id) == "{\"type\":\"subscribe\",\"room_ids\":[\""@ + json_escape(room_id)
            + "\"]}"@,
        json_unescape(json_escape(room_id)) == Some(room_id),
{
    reveal_strlit("{\"type\":\"subscribe\",\"room_ids\":[");
    reveal_strlit("{\"type\":\"subscribe\",\"room_ids\":[\"");
    reveal_strlit("]}");
    reveal_strlit("\"]}");
    lemma_json_unescape_escape(room_id);
    assert(ws_subscribe_json(room_id) =~= "{\"type\":\"subscribe\",\"room_ids\":[\""@ + json_escape(
        room_id,
    ) + "\"]}"@);
}

/// The views of a list of strings.
pub open spec fn string_views(v: Seq<String>) -> Seq<Seq<char>> {
    v.map_values(|s: String| s@)
}

/// The body of a peer connection request.
pub fn connect_peer_body(addr: &str) -> (r: String)
    ensures
        r@ == connect_peer_json(addr@),
{
    let mut out: Vec<char> = Vec::new();
    push_text(&mut out, "{\"addr\":");
    push_json_str(&mut out, addr);
    push_text(&mut out, "}");
    string_of(&out)
}

/// The body of a room creation (a direct room with the given members).
pub fn create_room_body(name: &str, members: &Vec<String>) -> (r: String)
    ensures
        r@ == create_room_json(name@, string_views(members@)),
{
    let mut out: Vec<char> = Vec::new();
    push_text(&mut out, "{\"name\":");
    push_json_str(&mut out, name);
    push_text(&mut out, ",\"room_type\":\"direct\",\"members\":[");
    let ghost head = out@;
    let mut i: usize = 0;
    while i < members.len()
        invariant
            i <= members@.len(),
            out@ == head + json_string_list(string_views(members@.take(i as int))),
        decreases members.len() - i,
    {
        let ghost prev = string_views(members@.take(i as int));
        let ghost next = string_views(members@.take(i + 1));
        assert(next.drop_last() =~= prev);
        assert(next.last() == members@[i as int]@);
        if i > 0 {
            push_text(&mut out, ",");
        }
        push_json_str(&mut out, members[i].as_str());
        assert(out@ =~= head + json_string_list(next));
        i = i + 1;
    }
    assert(members@.take(members@.len() as int) =~= members@);
    push_text(&mut out, "]}");
    string_of(&out)
}

/// The body of a message sent under a display name.
pub fn send_message_body(text: &str, display_name: &str) -> (r: String)
    ensures
        r@ == send_message_json(text@, display_name@),
{
    let mut out: Vec<char> = Vec::new();
    push_text(&mut out, "{\"text\":");
    push_json_str(&mut out, text);
    push_text(&mut out, ",\"display_name\":");
    push_json_str(&mut out, display_name);
    push_text(&mut out, "}");
    string_of(&out)
}

// ──────────────────────────── errors ────────────────────────────

/// The requests the client makes of the daemon.
pub enum ApiAction {
    ConnectPeer,
    GetIdentity,
    CreateRoom,
    ListMessages,
    SendMessage,
}

/// How a failed request is named in its error text.
pub open spec fn action_label(a: ApiAction) -> Seq<char> {
    match a {
        ApiAction::ConnectPeer => "Connect peer"@,
        ApiAction::GetIdentity => "Get identity"@,
        ApiAction::CreateRoom => "Create room"@,
        ApiAction::ListMessages => "List messages"@,
        ApiAction::SendMessage => "Send message"@,
    }
}

/// An HTTP status code that reports success (2xx).
pub open spec fn is_success_status(code: u16) -> bool {
    200 <= code <= 299
}

/// Whether an HTTP status code reports success (`StatusCode::is_success`).
pub fn status_is_success(code: u16) -> (r: bool)
    ensures
        r == is_success_status(code),
{
    200 <= code && code <= 299
}

/// The error text of a request that the daemon answered with a failure
/// status: `<Action> failed (<status>): <body>`.
pub fn failure_message(action: ApiAction, status: &str, body: &str) -> (r: String)
    ensures
        r@ == action_label(action) + " failed ("@ + status@ + "): "@ + body@,
{
    let mut out: Vec<char> = Vec::new();
    match action {
        ApiAction::ConnectPeer => push_text(&mut out, "Connect peer"),
        ApiAction::GetIdentity => push_text(&mut out, "Get identity"),
        ApiAction::CreateRoom => push_text(&mut out, "Create room"),
        ApiAction::ListMessages => push_text(&mut out, "List messages"),
        ApiAction::SendMessage => push_text(&mut out, "Send message"),
    }
    push_text(&mut out, " failed (");
    push_text(&mut out, status);
    push_text(&mut out, "): ");
    push_text(&mut out, body);
    string_of(&out)
}

/// The error text of a request that never got an answer.
pub fn http_error(detail: &str) -> (r: String)
    ensures
        r@ == "HTTP error: "@ + detail@,
{
    let mut out: Vec<char> = Vec::new();
    push_text(&mut out, "HTTP error: ");
    push_text(&mut out, detail);
    string_of(&out)
}

/// The error text of an answer whose body could not be read as expected.
pub fn parse_error(detail: &str) -> (r: String)
    ensures
        r@ == "Parse error: "@ + detail@,
{
    let mut out: Vec<char> = Vec::new();
    push_text(&mut out, "Parse error: ");
    push_text(&mut out, detail);
    string_of(&out)
}

/// The stages of opening the WebSocket.
pub enum WsStage {
    BuildRequest,
    Connect,
    Subscribe,
}

/// How a failed WebSocket stage is named in its error text.
pub open spec fn ws_stage_label(s: WsStage) -> Seq<char> {
    match s {
        WsStage::BuildRequest => "WS request build error: "@,
        WsStage::Connect => "WebSocket connect error: "@,
        WsStage::Subscribe => "WS send error: "@,
    }
}

/// The error text of a failed WebSocket stage.
pub fn ws_error(stage: WsStage, detail: &str) -> (r: String)
    ensures
        r@ == ws_stage_label(stage) + detail@,
{
    let mut out: Vec<char> = Vec::new();
    match stage {
        WsStage::BuildRequest => push_text(&mut out, "WS request build error: "),
        WsStage::Connect => push_text(&mut out, "WebSocket connect error: "),
        WsStage::Subscribe => push_text(&mut out, "WS send error: "),
    }
    push_text(&mut out, detail);
    string_of(&out)
}

// ──────────────────────────── WebSocket relay ────────────────────────────

/// What arrives from the daemon's WebSocket. A text frame carries the
/// event its text reads as, if it reads as one.
pub enum WsFrame<E> {
    /// A text frame.
    Text(Option<E>),
    /// A close frame.
    Close,
    /// A transport error.
    Failed,
    /// The stream ended.
    Ended,
    /// Any other frame (binary, ping, pong).
    Other,
}

/// What the relay does with an incoming frame.
pub enum RelayStep<E> {
    /// Pass this event on.
    Forward(E),
    /// Stop relaying.
    Stop,
    /// Wait for the next frame.
    Skip,
}

/// The frame ends the relay: a close, an error or the end of the stream.
pub open spec fn is_stop_frame<E>(f: WsFrame<E>) -> bool {
    f is Close || f is Failed || f is Ended
}

/// The relay's step for one frame: a text frame that reads as an event is
/// passed on, a stop frame stops, anything else is skipped.
pub open spec fn relay_step_of<E>(f: WsFrame<E>) -> RelayStep<E> {
    match f {
        WsFrame::Text(Some(e)) => RelayStep::Forward(e),
        WsFrame::Text(None) => RelayStep::Skip,
        WsFrame::Other => RelayStep::Skip,
        _ => RelayStep::Stop,
    }
}

/// The relay's step for one frame.
pub fn relay_step<E>(frame: WsFrame<E>) -> (r: RelayStep<E>)
    ensures
        r == relay_step_of(frame),
{
    match frame {
        WsFrame::Text(Some(e)) => RelayStep::Forward(e),
        WsFrame::Text(None) => RelayStep::Skip,
        WsFrame::Other => RelayStep::Skip,
        WsFrame::Close => RelayStep::Stop,
        WsFrame::Failed => RelayStep::Stop,
        WsFrame::Ended => RelayStep::Stop,
    }
}

/// The events passed on when the relay meets `frames` one by one.
pub open spec fn relayed<E>(frames: Seq<WsFrame<E>>) -> Seq<E>
    decreases frames.len(),
{
    if frames.len() == 0 {
        Seq::empty()
    } else {
        match relay_step_of(frames[0]) {
            RelayStep::Forward(e) => seq![e] + relayed(frames.drop_first()),
            RelayStep::Skip => relayed(frames.drop_first()),
            RelayStep::Stop => Seq::empty(),
        }
    }
}

/// The relay passes on, in order, the events of the frames before a stop:
/// what it passes on for frames without a stop, then what follows.
pub proof fn law_relay_keeps_order<E>(fs: Seq<WsFrame<E>>, gs: Seq<WsFrame<E>>)
    requires
        forall|i: int| 0 <= i < fs.len() ==> !is_stop_frame(#[trigger] fs[i]),
    ensures
        relayed(fs + gs) == relayed(fs) + relayed(gs),
    decreases fs.len(),
{
    if fs.len() == 0 {
        assert(fs + gs =~= gs);
    } else {
        assert((fs + gs).drop_first() =~= fs.drop_first() + gs);
        assert((fs + gs)[0] == fs[0]);
        assert(!is_stop_frame(fs[0]));
        assert forall|i: int| 0 <= i < fs.drop_first().len() implies !is_stop_frame(
            #[trigger] fs.drop_first()[i],
        ) by {
            assert(fs.drop_first()[i] == fs[i + 1]);
        }
        law_relay_keeps_order(fs.drop_first(), gs);
        match relay_step_of(fs[0]) {
            RelayStep::Forward(e) => {
                assert(seq![e] + relayed(fs.drop_first()) + relayed(gs) =~= seq![e] + (relayed(
                    fs.drop_first(),
                ) + relayed(gs)));
            },
            _ => {},
        }
    }
}

/// Nothing is passed on from a stop frame or after it.
pub proof fn law_relay_stops<E>(f: WsFrame<E>, gs: Seq<WsFrame<E>>)
    requires
        is_stop_frame(f),
    ensures
        relayed(seq![f] + gs) == Seq::<E>::empty(),
{
    assert((seq![f] + gs)[0] == f);
}

/// A single frame passes on its event exactly when it is a text frame that
/// reads as an event.
pub proof fn law_relay_single<E>(f: WsFrame<E>)
    ensures
        f matches WsFrame::Text(Some(e)) ==> relayed(seq![f]) == seq![e],
        !(f matches WsFrame::Text(Some(_))) ==> relayed(seq![f]) == Seq::<E>::empty(),
{
    assert(seq![f].drop_first() =~= Seq::<WsFrame<E>>::empty());
    assert(seq![f][0] == f);
    match f {
        WsFrame::Text(Some(e)) => {
            assert(relay_step_of(f) == RelayStep::Forward(e));
            assert(relayed(Seq::<WsFrame<E>>::empty()) =~= Seq::<E>::empty());
            assert(relayed(seq![f].drop_first()) =~= Seq::<E>::empty());
            assert(seq![f].len() == 1);
            assert(relayed(seq![f]) == seq![e] + relayed(seq![f].drop_first()));
            assert(seq![e] + Seq::<E>::empty() =~= seq![e]);
            assert(relayed(seq![f]) =~= seq![e]);
        },
        _ => {
            assert(relayed(Seq::<WsFrame<E>>::empty()) =~= Seq::<E>::empty());
            assert(seq![f].len() == 1);
        },
    }
}

// ──────────────────────────── WebSocket host ────────────────────────────

/// The host part of what follows a URL's scheme: everything up to the first
/// `/` or the next `://`.
pub open spec fn host_part(rest: Seq<char>) -> Seq<char>
    decreases rest.len(),
{
    if rest.len() == 0 || rest[0] == '/' || starts_with(rest, "://"@) {
        Seq::empty()
    } else {
        seq![rest[0]] + host_part(rest.drop_first())
    }
}

/// The `Host` header for a WebSocket URL: the host (with port) after the
/// first `://`, or `localhost` when the URL has no scheme separator.
pub open spec fn host_header_of(url: Seq<char>) -> Seq<char> {
    match find_from(url, "://"@, 0) {
        Some(i) => host_part(url.skip((i + "://"@.len()) as int)),
        None => "localhost"@,
    }
}

/// The `Host` header for a WebSocket URL.
pub fn ws_host_header(ws_url: &str) -> (r: String)
    ensures
        r@ == host_header_of(ws_url@),
{
    match find_text(ws_url, "://") {
        None => "localhost".to_owned(),
        Some(i) => {
            let cs = chars_of(ws_url);
            let sep = chars_of("://");
            proof {
                reveal_strlit("://");
                crate::text::lemma_find_from_found(ws_url@, "://"@, 0);
            }
            let len = cs.len();
            assert(i + 3 <= len);
            let start = i + 3;
            let ghost rest0 = cs@.skip(start as int);
            let mut j: usize = start;
            let mut out: Vec<char> = Vec::new();
            assert(cs@.skip(j as int) =~= rest0);
            loop
                invariant
                    start <= j <= cs@.len(),
                    cs@ == ws_url@,
                    sep@ == "://"@,
                    sep@.len() == 3,
                    host_part(rest0) == out@ + host_part(cs@.skip(j as int)),
                ensures
                    host_part(rest0) == out@,
                decreases cs.len() - j,
            {
                let ghost rest = cs@.skip(j as int);
                if j == cs.len() {
                    assert(rest.len() == 0);
                    assert(out@ + Seq::<char>::empty() =~= out@);
                    break ;
                }
                assert(rest[0] == cs@[j as int]);
                let mut at_sep = false;
                if cs.len() - j >= 3 {
                    at_sep = cs[j] == sep[0] && cs[j + 1] == sep[1] && cs[j + 2] == sep[2];
                    assert(at_sep == (rest.subrange(0, 3) =~= sep@));
                }
                assert(at_sep == starts_with(rest, "://"@));
                if cs[j] == '/' || at_sep {
                    assert(out@ + Seq::<char>::empty() =~= out@);
                    break ;
                }
                assert(rest.drop_first() =~= cs@.skip(j + 1));
                let ghost before = out@;
                out.push(cs[j]);
                assert(out@ =~= before + seq![rest[0]]);
                j = j + 1;
            }
            string_of(&out)
        },
    }
}

// ──────────────────────────── client ────────────────────────────

/// What the client knows of the daemon it talks to: its base URL (without
/// trailing slashes) and the session token.
pub struct NeoNetClient {
    base_url: String,
    token: String,
}

/// The WebSocket URL for a daemon base URL: `http://` becomes `ws://`,
/// `https://` becomes `wss://`, then `/v1/ws` is appended.
pub open spec fn ws_url_of(base: Seq<char>) -> Seq<char> {
    replace_all(replace_all(base, "http://"@, "ws://"@), "https://"@, "wss://"@) + "/v1/ws"@
}

impl NeoNetClient {
    /// The daemon's base URL.
    pub closed spec fn spec_base_url(&self) -> Seq<char> {
        self.base_url@
    }

    /// The session token.
    pub closed spec fn spec_token(&self) -> Seq<char> {
        self.token@
    }

    /// A client for the daemon at `base_url` (trailing slashes dropped).
    pub fn new(base_url: &str, token: &str) -> (r: NeoNetClient)
        ensures
            r.spec_base_url() == trim_end_char(base_url@, '/'),
            r.spec_token() == token@,
            r.spec_base_url().len() == 0 || r.spec_base_url().last() != '/',
    {
        proof {
            lemma_trim_end_char_last(base_url@, '/');
        }
        NeoNetClient { base_url: trim_end_matches_char(base_url, '/'), token: token.to_owned() }
    }

    /// The daemon's base URL.
    pub fn base_url(&self) -> (r: &str)
        ensures
            r@ == self.spec_base_url(),
    {
        self.base_url.as_str()
    }

    /// The session token.
    pub fn token(&self) -> (r: &str)
        ensures
            r@ == self.spec_token(),
    {
        self.token.as_str()
    }

    /// `base_url` followed by `path`.
    fn endpoint(&self, path: &str) -> (r: String)
        ensures
            r@ == self.spec_base_url() + path@,
    {
        let mut out: Vec<char> = Vec::new();
        push_text(&mut out, self.base_url.as_str());
        push_text(&mut out, path);
        string_of(&out)
    }

    /// Where peer connections are requested.
    pub fn connect_peer_url(&self) -> (r: String)
        ensures
            r@ == self.spec_base_url() + "/v1/peers/connect"@,
    {
        self.endpoint("/v1/peers/connect")
    }

    /// Where the client's own identity is read.
    pub fn identity_url(&self) -> (r: String)
        ensures
            r@ == self.spec_base_url() + "/v1/identity"@,
    {
        self.endpoint("/v1/identity")
    }

    /// Where rooms are created.
    pub fn rooms_url(&self) -> (r: String)
        ensures
            r@ == self.spec_base_url() + "/v1/rooms"@,
    {
        self.endpoint("/v1/rooms")
    }

    /// Where the last 200 messages of a room are listed.
    pub fn list_messages_url(&self, room_id: &str) -> (r: String)
        ensures
            r@ == self.spec_base_url() + "/v1/rooms/"@ + room_id@ + "/messages?limit=200"@,
    {
        let mut out: Vec<char> = Vec::new();
        push_text(&mut out, self.base_url.as_str());
        push_text(&mut out, "/v1/rooms/");
        push_text(&mut out, room_id);
        push_text(&mut out, "/messages?limit=200");
        string_of(&out)
    }

    /// Where messages are posted to a room.
    pub fn send_message_url(&self, room_id: &str) -> (r: String)
        ensures
            r@ == self.spec_base_url() + "/v1/rooms/"@ + room_id@ + "/messages"@,
    {
        let mut out: Vec<char> = Vec::new();
        push_text(&mut out, self.base_url.as_str());
        push_text(&mut out, "/v1/rooms/");
        push_text(&mut out, room_id);
        push_text(&mut out, "/messages");
        string_of(&out)
    }

    /// The daemon's WebSocket URL.
    pub fn ws_url(&self) -> (r: String)
        ensures
            r@ == ws_url_of(self.spec_base_url()),
    {
        proof {
            reveal_strlit("http://");
            reveal_strlit("https://");
        }
        let a = replace_text(self.base_url.as_str(), "http://", "ws://");
        let b = replace_text(a.as_str(), "https://", "wss://");
        let mut out = chars_of(b.as_str());
        push_text(&mut out, "/v1/ws");
        string_of(&out)
    }

    /// The `Authorization` header value: `Bearer <token>`.
    pub fn bearer_auth_value(&self) -> (r: String)
        ensures
            r@ == "Bearer "@ + self.spec_token(),
    {
        let mut out: Vec<char> = Vec::new();
        push_text(&mut out, "Bearer ");
        push_text(&mut out, self.token.as_str());
        string_of(&out)
    }

    /// The WebSocket message that subscribes to a room (sent again after the
    /// room has synced).
    pub fn ws_subscribe_msg(room_id: &str) -> (r: String)
        ensures
            r@ == ws_subscribe_json(room_id@),
    {
        let mut out: Vec<char> = Vec::new();
        push_text(&mut out, "{\"type\":\"subscribe\",\"room_ids\":[");
        push_json_str(&mut out, room_id);
        push_text(&mut out, "]}");
        string_of(&out)
    }
}

/// A client's base URL is already in normal form: building a client from
/// it again keeps it as it is.
pub proof fn law_base_url_is_normal(s: Seq<char>)
    ensures
        trim_end_char(trim_end_char(s, '/'), '/') == trim_end_char(s, '/'),
{
    lemma_trim_end_char_last(s, '/');
}

/// Trimming a character leaves a text that does not end with it.
pub proof fn lemma_trim_end_char_last(s: Seq<char>, c: char)
    ensures
        trim_end_char(s, c).len() == 0 || trim_end_char(s, c).last() != c,
    decreases s.len(),
{
    if s.len() > 0 && s.last() == c {
        lemma_trim_end_char_last(s.drop_last(), c);
    }
}

} // verus!
