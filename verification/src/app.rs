//! The chat's state and how it changes: messages shown, the line being
//! typed, whether the room has synced, and the reactions to history,
//! WebSocket events and key presses.
use vstd::prelude::*;
use crate::api::{DagEvent, WsEvent, ApiAction, action_label};
use crate::clock::{format_ts, shows_time_of, no_time, current_clock_time, is_clock_text};
use crate::json::EventContent;
use crate::text::{take_chars, contains, text_eq, take_text, contains_text, chars_of, string_of,
    push_text, push_char, pop_char, take_string};

verus! {

// ───────────────────────────── messages ─────────────────────────────

/// A line of the chat as it is shown.
#[derive(Clone)]
pub struct ChatMessage {
    pub timestamp: String,
    pub display_name: String,
    pub text: String,
}

/// The content of a chat line.
pub struct MessageView {
    pub timestamp: Seq<char>,
    pub display_name: Seq<char>,
    pub text: Seq<char>,
}

impl View for ChatMessage {
    type V = MessageView;

    open spec fn view(&self) -> MessageView {
        MessageView {
            timestamp: self.timestamp@,
            display_name: self.display_name@,
            text: self.text@,
        }
    }
}

/// The content of an optional line.
pub open spec fn message_views(o: Option<ChatMessage>) -> Option<MessageView> {
    match o {
        Some(m) => Some(m@),
        None => None,
    }
}

/// A line written by the client itself: no time, shown as from `system`.
pub open spec fn system_view(text: Seq<char>) -> MessageView {
    MessageView { timestamp: no_time(), display_name: "system"@, text }
}

impl ChatMessage {
    /// A line written by the client itself.
    pub fn system(text: String) -> (r: ChatMessage)
        ensures
            r@ == system_view(text@),
    {
        ChatMessage { timestamp: "--:--".to_owned(), display_name: "system".to_owned(), text }
    }
}

/// The name shown for a message: the content's non-empty `display_name`,
/// else the first 8 characters of the author, else `???`.
pub open spec fn display_name_of(content_name: Option<Seq<char>>, author: Option<Seq<char>>) -> Seq<
    char,
> {
    if content_name matches Some(n) && n.len() > 0 {
        content_name->0
    } else {
        match author {
            Some(a) => take_chars(a, 8),
            None => "???"@,
        }
    }
}

/// The line for a message whose content is `content`, by `author`, shown
/// at `ts`; none when the content has no string `text`.
pub open spec fn content_message(content: EventContent, author: Option<Seq<char>>, ts: Seq<char>) -> Option<
    MessageView,
> {
    match content.text_member("text"@) {
        None => None,
        Some(t) => Some(
            MessageView {
                timestamp: ts,
                display_name: display_name_of(content.text_member("display_name"@), author),
                text: t,
            },
        ),
    }
}

/// The line for a history event, shown at `ts`.
pub open spec fn dag_event_message(e: DagEvent, ts: Seq<char>) -> Option<MessageView> {
    content_message(e.content, e.author.deep_view(), ts)
}

/// The line for a pushed event, shown at `ts`: only `new_message` events
/// with a content carry one.
pub open spec fn ws_event_message(e: WsEvent, ts: Seq<char>) -> Option<MessageView> {
    if e.event_type@ != "new_message"@ {
        None
    } else {
        match e.content {
            None => None,
            Some(c) => content_message(c, e.author.deep_view(), ts),
        }
    }
}

/// Chooses the name shown for a message.
fn choose_display_name(content: &EventContent, author: &Option<String>) -> (r: String)
    ensures
        r@ == display_name_of(content.text_member("display_name"@), author.deep_view()),
{
    if let Some(n) = content.get_str("display_name") {
        if chars_of(n.as_str()).len() > 0 {
            return n;
        }
    }
    match author {
        Some(a) => take_text(a.as_str(), 8),
        None => "???".to_owned(),
    }
}

/// The line for a message content, shown at `timestamp`.
fn message_from_content(content: &EventContent, author: &Option<String>, timestamp: String) -> (r:
    Option<ChatMessage>)
    ensures
        message_views(r) == content_message(*content, author.deep_view(), timestamp@),
{
    match content.get_str("text") {
        None => None,
        Some(text) => {
            let display_name = choose_display_name(content, author);
            Some(ChatMessage { timestamp, display_name, text })
        },
    }
}

/// The line for a history event, with the time already formatted.
pub fn chat_message_from_dag_event(event: &DagEvent, timestamp: String) -> (r: Option<ChatMessage>)
    ensures
        message_views(r) == dag_event_message(*event, timestamp@),
{
    message_from_content(&event.content, &event.author, timestamp)
}

/// The line for a history event, its time shown in local `HH:MM`.
pub fn dag_event_to_chat_message(event: &DagEvent) -> (r: Option<ChatMessage>)
    ensures
        r is None <==> event.content.text_member("text"@) is None,
        r matches Some(m) ==> shows_time_of(event.ts_hint, m.timestamp@) && dag_event_message(*event, m.timestamp@)
            == Some(m@),
{
    if event.content.get_str("text").is_none() {
        return None;
    }
    let ts = format_ts(event.ts_hint);
    chat_message_from_dag_event(event, ts)
}

/// The line for a pushed event, with the time already formatted.
pub fn chat_message_from_ws_event(event: &WsEvent, timestamp: String) -> (r: Option<ChatMessage>)
    ensures
        message_views(r) == ws_event_message(*event, timestamp@),
{
    if !text_eq(event.event_type.as_str(), "new_message") {
        return None;
    }
    match &event.content {
        None => None,
        Some(content) => message_from_content(content, &event.author, timestamp),
    }
}

/// The time a pushed event is shown at: its `ts_hint`, or 0 without one.
pub open spec fn ws_event_secs(e: WsEvent) -> i64 {
    match e.ts_hint {
        Some(t) => t,
        None => 0,
    }
}

/// The line for a pushed event, its time shown in local `HH:MM`.
pub fn ws_event_to_chat_message(event: &WsEvent) -> (r: Option<ChatMessage>)
    ensures
        r is None <==> ws_event_message(*event, Seq::empty()) is None,
        r matches Some(m) ==> shows_time_of(ws_event_secs(*event), m.timestamp@) && ws_event_message(*event, m.timestamp@)
            == Some(m@),
{
    if !text_eq(event.event_type.as_str(), "new_message") {
        return None;
    }
    match &event.content {
        None => None,
        Some(content) => {
            if content.get_str("text").is_none() {
                return None;
            }
            let secs = match event.ts_hint {
                Some(t) => t,
                None => 0,
            };
            let ts = format_ts(secs);
            message_from_content(content, &event.author, ts)
        },
    }
}

// ───────────────────────────── history ─────────────────────────────

/// A history event that is shown: a `message` that was not redacted and
/// whose content has a string `text`.
pub open spec fn shown_in_history(e: DagEvent) -> bool {
    &&& e.kind@ == "message"@
    &&& !e.redacted
    &&& e.content.text_member("text"@) is Some
}

/// `added` are the lines shown for `events`, in order: one for each shown
/// event, each showing that event's time (local `HH:MM`, or `--:--` out of
/// chrono's range) and otherwise as that event gives it.
pub open spec fn history_lines(events: Seq<DagEvent>, added: Seq<MessageView>) -> bool
    decreases events.len(),
{
    if events.len() == 0 {
        added.len() == 0
    } else if shown_in_history(events.last()) {
        &&& added.len() > 0
        &&& shows_time_of(events.last().ts_hint, added.last().timestamp)
        &&& dag_event_message(events.last(), added.last().timestamp) == Some(added.last())
        &&& history_lines(events.drop_last(), added.drop_last())
    } else {
        history_lines(events.drop_last(), added)
    }
}

// ───────────────────────────── keys ─────────────────────────────

/// The keys the chat reacts to.
#[derive(Clone, Copy, PartialEq, Eq, Structural)]
pub enum KeyCode {
    Enter,
    Backspace,
    Char(char),
    Other,
}

/// A key press, with whether Control was held.
#[derive(Clone, Copy)]
pub struct KeyPress {
    pub code: KeyCode,
    pub ctrl: bool,
}

/// The key press is Control+C.
pub open spec fn is_interrupt(k: KeyPress) -> bool {
    k.ctrl && k.code == KeyCode::Char('c')
}

// ───────────────────────────── state ─────────────────────────────

/// The chat's state.
pub struct App {
    pub pseudo: String,
    pub room_id: String,
    pub own_address: String,
    pub synced: bool,
    pub messages: Vec<ChatMessage>,
    pub input: String,
    pub should_quit: bool,
}

/// The chat's state, as values.
pub struct AppView {
    pub pseudo: Seq<char>,
    pub room_id: Seq<char>,
    pub own_address: Seq<char>,
    pub synced: bool,
    pub messages: Seq<MessageView>,
    pub input: Seq<char>,
    pub should_quit: bool,
}

impl View for App {
    type V = AppView;

    open spec fn view(&self) -> AppView {
        AppView {
            pseudo: self.pseudo@,
            room_id: self.room_id@,
            own_address: self.own_address@,
            synced: self.synced,
            messages: self.messages@.map_values(|m: ChatMessage| m@),
            input: self.input@,
            should_quit: self.should_quit,
        }
    }
}

/// The state after a key press, and the text it sends, if any. `ts` is the
/// time a sent line is shown at.
pub open spec fn key_step(v: AppView, k: KeyPress, ts: Seq<char>) -> (AppView, Option<Seq<char>>) {
    let v1 = AppView { should_quit: v.should_quit || is_interrupt(k), ..v };
    match k.code {
        KeyCode::Enter => if v1.input.len() > 0 {
            (
                AppView {
                    messages: v1.messages.push(
                        MessageView { timestamp: ts, display_name: v1.pseudo, text: v1.input },
                    ),
                    input: Seq::empty(),
                    ..v1
                },
                Some(v1.input),
            )
        } else {
            (v1, None)
        },
        KeyCode::Backspace => if v1.input.len() > 0 {
            (AppView { input: v1.input.drop_last(), ..v1 }, None)
        } else {
            (v1, None)
        },
        KeyCode::Char(c) => if !k.ctrl {
            (AppView { input: v1.input.push(c), ..v1 }, None)
        } else {
            (v1, None)
        },
        KeyCode::Other => (v1, None),
    }
}

/// A `sync_status` event saying that the chat's room has just synced while
/// the chat was waiting for it.
pub open spec fn announces_sync(v: AppView, e: WsEvent) -> bool {
    &&& e.event_type@ == "sync_status"@
    &&& e.room_id.deep_view() == Some(v.room_id)
    &&& e.status.deep_view() == Some("synced"@)
    &&& !v.synced
}

/// What the chat did with a pushed event.
#[derive(Debug, Clone, Copy, PartialEq, Eq, Structural)]
pub enum WsReaction {
    /// Nothing shown or changed.
    Ignored,
    /// A line was added.
    Shown,
    /// The room has synced: the history was dropped; the caller subscribes
    /// again, reloads the history and calls `finish_resync`.
    Resync,
}

impl App {
    /// A chat in `room_id` for the user `pseudo`, whose own address is
    /// `own_address`: nothing shown, nothing typed, not yet synced.
    pub fn new(pseudo: String, room_id: String, own_address: String) -> (r: App)
        ensures
            r@ == (AppView {
                pseudo: pseudo@,
                room_id: room_id@,
                own_address: own_address@,
                synced: false,
                messages: Seq::empty(),
                input: Seq::empty(),
                should_quit: false,
            }),
    {
        let r = App {
            pseudo,
            room_id,
            own_address,
            synced: false,
            messages: Vec::new(),
            input: String::new(),
            should_quit: false,
        };
        assert(r@.messages =~= Seq::<MessageView>::empty());
        r
    }

    /// Shows one more line, after the others.
    pub fn add_message(&mut self, msg: ChatMessage)
        ensures
            final(self)@ == (AppView { messages: old(self)@.messages.push(msg@), ..old(self)@ }),
    {
        let ghost m = msg@;
        self.messages.push(msg);
        assert(self@.messages =~= old(self)@.messages.push(m));
    }

    /// Shows the lines of a room's history: those of the `message` events
    /// that were not redacted and carry a text, in order.
    pub fn load_history(&mut self, events: &[DagEvent])
        ensures
            final(self)@.messages.len() >= old(self)@.messages.len(),
            final(self)@.messages.take(old(self)@.messages.len() as int) == old(self)@.messages,
            history_lines(events@, final(self)@.messages.skip(old(self)@.messages.len() as int)),
            final(self)@ == (AppView { messages: final(self)@.messages, ..old(self)@ }),
    {
        let ghost start = self@.messages;
        let ghost n0 = start.len();
        let mut i: usize = 0;
        assert(events@.take(0) =~= Seq::<DagEvent>::empty());
        assert(self@.messages.skip(n0 as int) =~= Seq::<MessageView>::empty());
        while i < events.len()
            invariant
                i <= events@.len(),
                self@.messages.len() >= n0,
                self@.messages.take(n0 as int) == start,
                history_lines(events@.take(i as int), self@.messages.skip(n0 as int)),
                self@ == (AppView { messages: self@.messages, ..old(self)@ }),
                start == old(self)@.messages,
                n0 == start.len(),
            decreases events.len() - i,
        {
            let ghost before = self@.messages;
            let event = &events[i];
            let ghost prefix = events@.take(i + 1);
            assert(prefix.drop_last() =~= events@.take(i as int));
            assert(prefix.last() == events@[i as int]);
            if !text_eq(event.kind.as_str(), "message") || event.redacted {
                i = i + 1;
                continue;
            }
            match dag_event_to_chat_message(event) {
                Some(msg) => {
                    let ghost m = msg@;
                    self.messages.push(msg);
                    assert(self@.messages =~= before.push(m));
                    assert(self@.messages.skip(n0 as int).drop_last() =~= before.skip(n0 as int));
                    assert(self@.messages.skip(n0 as int).last() == m);
                    assert(self@.messages.take(n0 as int) =~= start);
                },
                None => {},
            }
            i = i + 1;
        }
        assert(events@.take(events@.len() as int) =~= events@);
    }

    /// The chat's reaction to the outcome of the first history request:
    /// the history shown; or, for an error mentioning `404`, a note that
    /// the room is still syncing; or the error itself.
    pub fn apply_history_result(&mut self, result: Result<Vec<DagEvent>, String>)
        ensures
            match result {
                Ok(events) => {
                    &&& final(self)@.synced
                    &&& final(self)@.messages.take(old(self)@.messages.len() as int)
                        == old(self)@.messages
                    &&& history_lines(
                        events@,
                        final(self)@.messages.skip(old(self)@.messages.len() as int),
                    )
                    &&& final(self)@ == (AppView {
                        synced: true,
                        messages: final(self)@.messages,
                        ..old(self)@
                    })
                },
                Err(e) => if contains(e@, "404"@) {
                    final(self)@ == (AppView {
                        synced: false,
                        messages: old(self)@.messages.push(
                            system_view("Room syncing, waiting for peers..."@),
                        ),
                        ..old(self)@
                    })
                } else {
                    final(self)@ == (AppView {
                        synced: true,
                        messages: old(self)@.messages.push(
                            system_view("Failed to load history: "@ + e@),
                        ),
                        ..old(self)@
                    })
                },
            },
    {
        match result {
            Ok(events) => {
                self.synced = true;
                self.load_history(events.as_slice());
            },
            Err(e) => {
                if contains_text(e.as_str(), "404") {
                    self.synced = false;
                    self.add_message(
                        ChatMessage::system("Room syncing, waiting for peers...".to_owned()),
                    );
                } else {
                    self.synced = true;
                    let mut out: Vec<char> = Vec::new();
                    push_text(&mut out, "Failed to load history: ");
                    push_text(&mut out, e.as_str());
                    self.add_message(ChatMessage::system(string_of(&out)));
                }
            },
        }
    }

    /// Shows that the WebSocket could not be opened.
    pub fn report_ws_failure(&mut self, error: &str)
        ensures
            final(self)@ == (AppView {
                messages: old(self)@.messages.push(system_view("WebSocket failed: "@ + error@)),
                ..old(self)@
            }),
    {
        let mut out: Vec<char> = Vec::new();
        push_text(&mut out, "WebSocket failed: ");
        push_text(&mut out, error);
        self.add_message(ChatMessage::system(string_of(&out)));
    }

    /// The chat's reaction to an event pushed over the WebSocket: a
    /// `sync_status` for this room saying it synced, while the chat was
    /// waiting, starts a resync; other `sync_status` events and events by the
    /// user's own address change nothing; other events show their line.
    pub fn handle_ws_event(&mut self, event: &WsEvent) -> (r: WsReaction)
        ensures
            event.event_type@ == "sync_status"@ && event.status.deep_view() != Some("synced"@)
                ==> r == WsReaction::Ignored && final(self)@ == old(self)@,
            event.event_type@ == "sync_status"@ && old(self)@.synced ==> r == WsReaction::Ignored
                && final(self)@ == old(self)@,
            r == WsReaction::Resync ==> event.status.deep_view() == Some("synced"@)
                && event.room_id.deep_view() == Some(old(self)@.room_id) && !old(self)@.synced,
            event.event_type@ == "sync_status"@ ==> if announces_sync(old(self)@, *event) {
                &&& r == WsReaction::Resync
                &&& final(self)@ == (AppView {
                    synced: true,
                    messages: Seq::empty(),
                    ..old(self)@
                })
            } else {
                r == WsReaction::Ignored && final(self)@ == old(self)@
            },
            event.event_type@ != "sync_status"@ && event.author.deep_view() == Some(
                old(self)@.own_address,
            ) ==> r == WsReaction::Ignored && final(self)@ == old(self)@,
            event.event_type@ != "sync_status"@ && event.author.deep_view() != Some(
                old(self)@.own_address,
            ) ==> if ws_event_message(*event, Seq::empty()) is Some {
                r == WsReaction::Shown && exists|m: MessageView|
                    shows_time_of(ws_event_secs(*event), m.timestamp) && ws_event_message(*event, m.timestamp) == Some(m)
                        && final(self)@ == (AppView {
                        messages: old(self)@.messages.push(m),
                        ..old(self)@
                    })
            } else {
                r == WsReaction::Ignored && final(self)@ == old(self)@
            },
    {
        if text_eq(event.event_type.as_str(), "sync_status") {
            let ours = match &event.room_id {
                Some(room) => text_eq(room.as_str(), self.room_id.as_str()),
                None => false,
            };
            let synced_now = match &event.status {
                Some(s) => text_eq(s.as_str(), "synced"),
                None => false,
            };
            if ours && synced_now && !self.synced {
                self.begin_resync();
                return WsReaction::Resync;
            }
            return WsReaction::Ignored;
        }
        if let Some(author) = &event.author {
            if text_eq(author.as_str(), self.own_address.as_str()) {
                return WsReaction::Ignored;
            }
        }
        match ws_event_to_chat_message(event) {
            Some(msg) => {
                let ghost m = msg@;
                self.add_message(msg);
                assert(shows_time_of(ws_event_secs(*event), m.timestamp) && ws_event_message(*event, m.timestamp) == Some(
                    m,
                ));
                WsReaction::Shown
            },
            None => WsReaction::Ignored,
        }
    }

    /// Marks the room synced and drops the lines shown so far.
    pub fn begin_resync(&mut self)
        ensures
            final(self)@ == (AppView { synced: true, messages: Seq::empty(), ..old(self)@ }),
    {
        self.synced = true;
        self.messages.clear();
        assert(self@.messages =~= Seq::<MessageView>::empty());
    }

    /// Completes a resync: shows the reloaded history, if it could be read,
    /// then the line `Room synced.`.
    pub fn finish_resync(&mut self, history: Option<&[DagEvent]>)
        ensures
            final(self)@.messages.len() >= old(self)@.messages.len() + 1,
            final(self)@.messages.take(old(self)@.messages.len() as int) == old(self)@.messages,
            final(self)@.messages.last() == system_view("Room synced."@),
            match history {
                Some(events) => history_lines(
                    events@,
                    final(self)@.messages.subrange(
                        old(self)@.messages.len() as int,
                        final(self)@.messages.len() - 1,
                    ),
                ),
                None => final(self)@.messages.len() == old(self)@.messages.len() + 1,
            },
            final(self)@ == (AppView { messages: final(self)@.messages, ..old(self)@ }),
    {
        let ghost n0 = self@.messages.len();
        if let Some(events) = history {
            self.load_history(events);
        }
        let ghost mid = self@.messages;
        self.add_message(ChatMessage::system("Room synced.".to_owned()));
        assert(self@.messages.take(n0 as int) =~= mid.take(n0 as int));
        if let Some(events) = history {
            assert(self@.messages.subrange(n0 as int, self@.messages.len() - 1) =~= mid.skip(
                n0 as int,
            ));
        }
    }

    /// The outcome of a periodic history retry: once the history can be
    /// read, the room counts as synced, only that history is shown, followed
    /// by `Room synced.`, and `true` asks the caller to subscribe again; a
    /// failed read changes nothing.
    pub fn apply_sync_retry(&mut self, result: Result<Vec<DagEvent>, String>) -> (r: bool)
        ensures
            r == result is Ok,
            result is Err ==> final(self)@ == old(self)@,
            result matches Ok(events) ==> {
                &&& final(self)@.messages.len() >= 1
                &&& final(self)@.messages.last() == system_view("Room synced."@)
                &&& history_lines(events@, final(self)@.messages.drop_last())
                &&& final(self)@ == (AppView {
                    synced: true,
                    messages: final(self)@.messages,
                    ..old(self)@
                })
            },
    {
        match result {
            Ok(events) => {
                self.begin_resync();
                self.finish_resync(Some(events.as_slice()));
                assert(self@.messages.subrange(0, self@.messages.len() - 1) =~= self@.messages.drop_last());
                true
            },
            Err(_) => false,
        }
    }

    /// The periodic history retry is due: the room has not synced and
    /// 3 seconds have passed since the last try.
    pub fn sync_retry_due(&self, elapsed_ms: u128) -> (r: bool)
        ensures
            r == (!self.synced && elapsed_ms >= 3000),
    {
        !self.synced && elapsed_ms >= 3000
    }

    /// The chat's reaction to a key press, the time a sent line is shown at
    /// being `timestamp`; returns the text to send, if any.
    pub fn handle_key_at(&mut self, key: KeyPress, timestamp: String) -> (r: Option<String>)
        ensures
            (final(self)@, r.deep_view()) == key_step(old(self)@, key, timestamp@),
    {
        if key.ctrl && key.code == KeyCode::Char('c') {
            self.should_quit = true;
        }
        match key.code {
            KeyCode::Enter => {
                if chars_of(self.input.as_str()).len() > 0 {
                    let text = take_string(&mut self.input);
                    let ghost sent = text@;
                    let line = ChatMessage {
                        timestamp,
                        display_name: self.pseudo.clone(),
                        text: text.clone(),
                    };
                    let ghost m = line@;
                    self.messages.push(line);
                    assert(self@.messages =~= old(self)@.messages.push(m));
                    return Some(text);
                }
                None
            },
            KeyCode::Backspace => {
                pop_char(&mut self.input);
                None
            },
            KeyCode::Char(c) => {
                if !key.ctrl {
                    push_char(&mut self.input, c);
                }
                None
            },
            KeyCode::Other => None,
        }
    }

    /// The chat's reaction to a key press, a sent line being shown at the
    /// current local time; returns the text to send, if any.
    pub fn handle_key(&mut self, key: KeyPress) -> (r: Option<String>)
        ensures
            r is None ==> (final(self)@, None::<Seq<char>>) == key_step(
                old(self)@,
                key,
                Seq::empty(),
            ),
            r is Some ==> exists|ts: Seq<char>|
                is_clock_text(ts) && (final(self)@, r.deep_view()) == key_step(
                    old(self)@,
                    key,
                    ts,
                ),
    {
        let sends = key.code == KeyCode::Enter && chars_of(self.input.as_str()).len() > 0;
        let now = if sends {
            current_clock_time()
        } else {
            String::new()
        };
        let ghost ts = now@;
        let r = self.handle_key_at(key, now);
        assert((self@, r.deep_view()) == key_step(old(self)@, key, ts));
        r
    }
}

/// Lines shown for two histories, one after the other, are the lines shown
/// for the two histories joined: loading a history in parts shows what
/// loading it at once shows.
pub proof fn law_history_lines_concat(
    xs: Seq<DagEvent>,
    ys: Seq<DagEvent>,
    a: Seq<MessageView>,
    b: Seq<MessageView>,
)
    requires
        history_lines(xs, a),
        history_lines(ys, b),
    ensures
        history_lines(xs + ys, a + b),
    decreases ys.len(),
{
    if ys.len() == 0 {
        assert(xs + ys =~= xs);
        assert(a + b =~= a);
    } else {
        assert((xs + ys).drop_last() =~= xs + ys.drop_last());
        assert((xs + ys).last() == ys.last());
        if shown_in_history(ys.last()) {
            law_history_lines_concat(xs, ys.drop_last(), a, b.drop_last());
            assert((a + b).drop_last() =~= a + b.drop_last());
            assert((a + b).last() == b.last());
        } else {
            law_history_lines_concat(xs, ys.drop_last(), a, b);
        }
    }
}

/// Two lists of lines are the same but for which local clock reading each
/// line shows: same names, same texts, and each time is `--:--` in one list
/// exactly when it is in the other.
pub open spec fn same_lines_up_to_clock(a: Seq<MessageView>, b: Seq<MessageView>) -> bool {
    &&& a.len() == b.len()
    &&& forall|i: int|
        0 <= i < a.len() ==> {
            &&& #[trigger] a[i].display_name == b[i].display_name
            &&& a[i].text == b[i].text
            &&& (a[i].timestamp == no_time() <==> b[i].timestamp == no_time())
        }
}

/// The lines shown for a history are fixed but for the local clock reading
/// of each time.
pub proof fn law_history_lines_unique(events: Seq<DagEvent>, a: Seq<MessageView>, b: Seq<MessageView>)
    requires
        history_lines(events, a),
        history_lines(events, b),
    ensures
        same_lines_up_to_clock(a, b),
    decreases events.len(),
{
    reveal_strlit("--:--");
    if events.len() > 0 {
        if shown_in_history(events.last()) {
            law_history_lines_unique(events.drop_last(), a.drop_last(), b.drop_last());
            assert forall|i: int| 0 <= i < a.len() implies {
                &&& #[trigger] a[i].display_name == b[i].display_name
                &&& a[i].text == b[i].text
                &&& (a[i].timestamp == no_time() <==> b[i].timestamp == no_time())
            } by {
                if i < a.len() - 1 {
                    assert(a[i] == a.drop_last()[i]);
                    assert(b[i] == b.drop_last()[i]);
                    assert(a.drop_last()[i].display_name == b.drop_last()[i].display_name);
                } else {
                    assert(a[i] == a.last());
                    assert(b[i] == b.last());
                }
            }
        } else {
            law_history_lines_unique(events.drop_last(), a, b);
        }
    }
}

/// Loading a history in two parts shows the lines that loading it at once
/// shows, but for the local clock reading of each time.
pub proof fn law_history_in_parts_matches_at_once(
    xs: Seq<DagEvent>,
    ys: Seq<DagEvent>,
    a: Seq<MessageView>,
    b: Seq<MessageView>,
    c: Seq<MessageView>,
)
    requires
        history_lines(xs, a),
        history_lines(ys, b),
        history_lines(xs + ys, c),
    ensures
        same_lines_up_to_clock(a + b, c),
{
    law_history_lines_concat(xs, ys, a, b);
    law_history_lines_unique(xs + ys, a + b, c);
}

/// A pushed `new_message` event and a history event with the same author,
/// content and time give the same line, shown at the same time.
pub proof fn law_pushed_and_history_lines_agree(e: WsEvent, d: DagEvent, ts: Seq<char>)
    requires
        e.event_type@ == "new_message"@,
        e.content == Some(d.content),
        e.author == d.author,
        e.ts_hint == Some(d.ts_hint),
    ensures
        ws_event_message(e, ts) == dag_event_message(d, ts),
        ws_event_secs(e) == d.ts_hint,
{
}

/// Two events that differ at most in whether they were edited.
pub open spec fn same_but_edited(x: DagEvent, y: DagEvent) -> bool {
    &&& x.event_id == y.event_id
    &&& x.author == y.author
    &&& x.kind == y.kind
    &&& x.content == y.content
    &&& x.ts_hint == y.ts_hint
    &&& x.redacted == y.redacted
}

/// Whether an event was edited never changes the lines shown for a
/// history: two histories that differ only in their events' `edited`
/// flags are shown by the same lines.
pub proof fn law_history_ignores_edited(
    xs: Seq<DagEvent>,
    ys: Seq<DagEvent>,
    lines: Seq<MessageView>,
)
    requires
        xs.len() == ys.len(),
        forall|i: int| 0 <= i < xs.len() ==> same_but_edited(#[trigger] xs[i], ys[i]),
    ensures
        history_lines(xs, lines) == history_lines(ys, lines),
    decreases xs.len(),
{
    if xs.len() > 0 {
        assert(same_but_edited(xs[xs.len() - 1], ys[ys.len() - 1]));
        assert forall|i: int| 0 <= i < xs.drop_last().len() implies same_but_edited(
            #[trigger] xs.drop_last()[i],
            ys.drop_last()[i],
        ) by {
            assert(same_but_edited(xs[i], ys[i]));
        }
        law_history_ignores_edited(xs.drop_last(), ys.drop_last(), lines);
        if lines.len() > 0 {
            law_history_ignores_edited(xs.drop_last(), ys.drop_last(), lines.drop_last());
        }
    }
}

/// A history of one `message` event that is not redacted and whose content
/// has a string `text` is shown by exactly one line carrying that text,
/// whatever its other fields (its `edited` flag among them).
pub proof fn law_history_shows_each_message(e: DagEvent, t: Seq<char>, lines: Seq<MessageView>)
    requires
        e.kind@ == "message"@,
        !e.redacted,
        e.content.text_member("text"@) == Some(t),
        history_lines(seq![e], lines),
    ensures
        lines.len() == 1,
        lines[0].text == t,
{
    let es = seq![e];
    assert(es.last() == e);
    assert(es.drop_last() =~= Seq::<DagEvent>::empty());
    assert(shown_in_history(e));
    assert(history_lines(Seq::<DagEvent>::empty(), lines.drop_last()));
    assert(lines.drop_last().len() == 0);
    assert(lines[0] == lines.last());
}

/// A history of one event of another kind, a redacted one, or one whose
/// content has no string `text` is shown by no line.
pub proof fn law_history_skips_others(e: DagEvent, lines: Seq<MessageView>)
    requires
        e.kind@ != "message"@ || e.redacted || e.content.text_member("text"@) is None,
        history_lines(seq![e], lines),
    ensures
        lines.len() == 0,
{
    let es = seq![e];
    assert(es.last() == e);
    assert(es.drop_last() =~= Seq::<DagEvent>::empty());
    assert(!shown_in_history(e));
    assert(history_lines(Seq::<DagEvent>::empty(), lines));
}

/// Only a `sync_status` event whose status is exactly `synced` announces
/// that the room synced; `syncing`, `error` or no status never do.
pub proof fn law_only_synced_status_resyncs(v: AppView, e: WsEvent)
    requires
        e.status.deep_view() != Some("synced"@),
    ensures
        !announces_sync(v, e),
{
}

/// A non-empty display name in the content is shown as it is, whatever
/// its length and whoever the author.
pub proof fn law_content_name_shown_whole(n: Seq<char>, author: Option<Seq<char>>)
    requires
        n.len() > 0,
    ensures
        display_name_of(Some(n), author) == n,
{
}

/// Without a non-empty display name in the content, the name shown is the
/// author's first 8 characters (all of them when there are fewer), or
/// `???` without an author.
pub proof fn law_author_name_fallback(content_name: Option<Seq<char>>, author: Option<Seq<char>>)
    requires
        content_name is None || content_name->0.len() == 0,
    ensures
        author matches Some(a) ==> (a.len() <= 8 ==> display_name_of(content_name, author) == a),
        author matches Some(a) ==> (a.len() > 8 ==> display_name_of(content_name, author)
            == a.subrange(0, 8)),
        author is None ==> display_name_of(content_name, author) == "???"@,
{
}

/// The line for a history or pushed message shows its content's non-empty
/// display name exactly, and its text exactly.
pub proof fn law_line_keeps_content_name(c: EventContent, author: Option<Seq<char>>, ts: Seq<char>, n: Seq<char>, t: Seq<char>)
    requires
        c.text_member("text"@) == Some(t),
        c.text_member("display_name"@) == Some(n),
        n.len() > 0,
    ensures
        content_message(c, author, ts) matches Some(m) && m.display_name == n && m.text == t
            && m.timestamp == ts,
{
}

/// A key press without Control.
pub open spec fn plain_key(code: KeyCode) -> KeyPress {
    KeyPress { code, ctrl: false }
}

/// The state after typing the characters of `cs`, one key press each,
/// without Control.
pub open spec fn type_chars(v: AppView, cs: Seq<char>) -> AppView
    decreases cs.len(),
{
    if cs.len() == 0 {
        v
    } else {
        key_step(type_chars(v, cs.drop_last()), plain_key(KeyCode::Char(cs.last())), Seq::empty()).0
    }
}

/// Typing characters appends them to the input and changes nothing else.
pub proof fn lemma_type_chars(v: AppView, cs: Seq<char>)
    ensures
        type_chars(v, cs) == (AppView { input: v.input + cs, ..v }),
    decreases cs.len(),
{
    if cs.len() == 0 {
        assert(v.input + cs =~= v.input);
    } else {
        lemma_type_chars(v, cs.drop_last());
        assert(v.input + cs.drop_last() + seq![cs.last()] =~= v.input + cs);
        assert((v.input + cs.drop_last()).push(cs.last()) =~= v.input + cs);
    }
}

/// Typing a text and pressing Enter sends what was typed (after whatever
/// was already in the input), shows it as the user's own line at the
/// sending time, and leaves the input empty.
pub proof fn law_typed_text_is_sent(v: AppView, cs: Seq<char>, ts: Seq<char>)
    requires
        v.input.len() + cs.len() > 0,
    ensures
        ({
            let (w, sent) = key_step(type_chars(v, cs), plain_key(KeyCode::Enter), ts);
            &&& sent == Some(v.input + cs)
            &&& w.input.len() == 0
            &&& w.messages == v.messages.push(
                MessageView { timestamp: ts, display_name: v.pseudo, text: v.input + cs },
            )
            &&& w.synced == v.synced
            &&& w.should_quit == v.should_quit
        }),
{
    lemma_type_chars(v, cs);
}

/// Backspace takes back the character just typed.
pub proof fn law_backspace_undoes_typing(v: AppView, c: char, ts: Seq<char>)
    ensures
        key_step(
            key_step(v, plain_key(KeyCode::Char(c)), ts).0,
            plain_key(KeyCode::Backspace),
            ts,
        ).0 == v,
{
    assert(v.input.push(c).drop_last() =~= v.input);
}

/// A history request answered with a status that mentions 404 leaves the
/// chat waiting for the room to sync: its error text mentions 404 too,
/// whatever the answer's body.
pub proof fn law_not_found_history_means_syncing(status: Seq<char>, body: Seq<char>)
    requires
        contains(status, "404"@),
    ensures
        contains(
            action_label(ApiAction::ListMessages) + " failed ("@ + status + "): "@ + body,
            "404"@,
        ),
{
    crate::text::lemma_contains_within(
        action_label(ApiAction::ListMessages) + " failed ("@,
        status,
        "): "@ + body,
        "404"@,
    );
    assert(action_label(ApiAction::ListMessages) + " failed ("@ + status + ("): "@ + body)
        =~= action_label(ApiAction::ListMessages) + " failed ("@ + status + "): "@ + body);
}

/// Control+C ends the chat whatever was typed, and types nothing.
pub proof fn law_interrupt_quits(v: AppView, ts: Seq<char>)
    ensures
        ({
            let (w, sent) = key_step(v, KeyPress { code: KeyCode::Char('c'), ctrl: true }, ts);
            w.should_quit && sent is None && w.input == v.input && w.messages == v.messages
        }),
{
}

} // verus!
