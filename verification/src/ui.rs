//! What the screens show, as text and positions: the chat's header, each
//! chat line's three parts, how far the message list scrolls, and where the
//! cursor stands. Drawing them is left to the terminal front end.
use vstd::prelude::*;
use crate::app::{App, ChatMessage};
use crate::text::{pad_right, pad_right_text, push_text, string_of, chars_of};

verus! {

/// The chat screen's header line.
pub fn header_text(app: &App) -> (r: String)
    ensures
        r@ == " NeoNet Demo Chat — "@ + app.pseudo@ + " — Room: "@ + app.room_id@ + " "@,
{
    let mut out: Vec<char> = Vec::new();
    push_text(&mut out, " NeoNet Demo Chat — ");
    push_text(&mut out, app.pseudo.as_str());
    push_text(&mut out, " — Room: ");
    push_text(&mut out, app.room_id.as_str());
    push_text(&mut out, " ");
    string_of(&out)
}

/// The three parts of a chat line as shown: `[time] `, the name padded to
/// 10 characters, and ` : text`.
pub fn message_line_parts(m: &ChatMessage) -> (r: (String, String, String))
    ensures
        r.0@ == "["@ + m.timestamp@ + "] "@,
        r.1@ == pad_right(m.display_name@, 10),
        r.2@ == " : "@ + m.text@,
{
    let mut time: Vec<char> = Vec::new();
    push_text(&mut time, "[");
    push_text(&mut time, m.timestamp.as_str());
    push_text(&mut time, "] ");
    let name = pad_right_text(m.display_name.as_str(), 10);
    let mut text: Vec<char> = Vec::new();
    push_text(&mut text, " : ");
    push_text(&mut text, m.text.as_str());
    (string_of(&time), name, string_of(&text))
}

/// The number of lines inside a bordered area of the given height.
pub open spec fn inner_height(area_height: u16) -> int {
    if area_height >= 2 {
        area_height - 2
    } else {
        0
    }
}

/// How many lines the message list scrolls so that its last lines are
/// visible in a bordered area of `area_height` rows (kept to 16 bits).
pub fn scroll_offset(line_count: usize, area_height: u16) -> (r: u16)
    ensures
        line_count > inner_height(area_height) ==> r == ((line_count - inner_height(area_height)) as u16),
        line_count <= inner_height(area_height) ==> r == 0,
{
    let visible: usize = if area_height >= 2 {
        (area_height - 2) as usize
    } else {
        0
    };
    if line_count > visible {
        (line_count - visible) as u16
    } else {
        0
    }
}

/// The chat's input line: the `> ` prompt, then the typed text.
pub fn input_line_text(input: &str) -> (r: String)
    ensures
        r@ == "> "@ + input@,
{
    let mut out: Vec<char> = Vec::new();
    push_text(&mut out, "> ");
    push_text(&mut out, input);
    string_of(&out)
}

/// Where the cursor stands in the chat's input box whose top-left corner is
/// (`area_x`, `area_y`): just after the typed text, past the border and the
/// `> ` prompt (one column per character; the count is kept to 16 bits).
pub fn input_cursor(area_x: u16, area_y: u16, input: &str) -> (r: (u16, u16))
    requires
        area_x + 3 + (input@.len() as u16) <= u16::MAX,
        area_y + 1 <= u16::MAX,
    ensures
        r.0 == area_x + 3 + (input@.len() as u16),
        r.1 == area_y + 1,
{
    let len = chars_of(input).len() as u16;
    (area_x + 1 + 2 + len, area_y + 1)
}

/// The pseudo screen's input line.
pub fn pseudo_prompt_text(input: &str) -> (r: String)
    ensures
        r@ == "  Pseudo : "@ + input@,
{
    let mut out: Vec<char> = Vec::new();
    push_text(&mut out, "  Pseudo : ");
    push_text(&mut out, input);
    string_of(&out)
}

/// Where the cursor stands on the pseudo screen, whose input box has its
/// top-left corner at (`area_x`, `area_y`): 11 columns right of the corner
/// (the border and the `  Pseudo : ` label) plus the typed text's length in
/// bytes, kept to 16 bits.
pub fn pseudo_prompt_cursor(area_x: u16, area_y: u16, input: &str) -> (r: (u16, u16))
    requires
        area_x + 11 + (input.len() as u16) <= u16::MAX,
        area_y + 1 <= u16::MAX,
    ensures
        r.0 == area_x + 11 + (input.len() as u16),
        r.1 == area_y + 1,
{
    let len = input.len() as u16;
    (area_x + 1 + 10 + len, area_y + 1)
}

} // verus!
