//! The JSON vocabulary of the daemon as far as the client reads and writes it:
//! the string members of an event's `content` object, and JSON string
//! literals for the request bodies the client frames.
use vstd::prelude::*;
use crate::text::{chars_of, append_chars, text_eq};

verus! {

/// The value of one member of a JSON object, as far as the client reads it:
/// a string, or any other JSON value.
#[derive(Clone, Debug)]
pub enum JsonField {
    Str(String),
    Other,
}

/// A JSON object (an event's `content`), as its members in order.
/// A `content` that is not an object has no members.
#[derive(Clone, Debug)]
pub struct EventContent {
    pub members: Vec<(String, JsonField)>,
}

/// The string held by the first member named `key`, if that member is a string.
pub open spec fn member_text(ms: Seq<(String, JsonField)>, key: Seq<char>) -> Option<Seq<char>>
    decreases ms.len(),
{
    if ms.len() == 0 {
        None
    } else if ms[0].0@ == key {
        match ms[0].1 {
            JsonField::Str(s) => Some(s@),
            JsonField::Other => None,
        }
    } else {
        member_text(ms.drop_first(), key)
    }
}

impl EventContent {
    /// The string member `key` of this object (`content.get(key)?.as_str()`).
    pub open spec fn text_member(&self, key: Seq<char>) -> Option<Seq<char>> {
        member_text(self.members@, key)
    }

    /// An object with no members.
    pub fn empty() -> (r: EventContent)
        ensures
            r.members@.len() == 0,
    {
        EventContent { members: Vec::new() }
    }

    /// Looks up the string member `key`.
    pub fn get_str(&self, key: &str) -> (r: Option<String>)
        ensures
            match self.text_member(key@) {
                Some(t) => r matches Some(s) && s@ == t,
                None => r is None,
            },
    {
        let mut i: usize = 0;
        assert(self.members@.skip(0) =~= self.members@);
        while i < self.members.len()
            invariant
                i <= self.members@.len(),
                self.text_member(key@) == member_text(self.members@.skip(i as int), key@),
            decreases self.members.len() - i,
        {
            let ghost rest = self.members@.skip(i as int);
            assert(rest[0] == self.members@[i as int]);
            assert(rest.drop_first() =~= self.members@.skip(i + 1));
            if text_eq(self.members[i].0.as_str(), key) {
                return match &self.members[i].1 {
                    JsonField::Str(s) => Some(s.clone()),
                    JsonField::Other => None,
                };
            }
            i = i + 1;
        }
        None
    }
}

/// A lowercase hexadecimal digit.
pub open spec fn hex_digit(n: int) -> char {
    if n < 10 {
        (0x30 + n) as char
    } else {
        (0x61 + n - 10) as char
    }
}

/// How one character is written inside a JSON string literal: the quote,
/// the backslash and the control characters below U+0020 are escaped (with
/// a short escape where JSON has one, else `\u00xx`); all else is kept.
pub open spec fn json_escape_char(c: char) -> Seq<char> {
    let u = c as u32;
    if c == '"' {
        seq!['\\', '"']
    } else if c == '\\' {
        seq!['\\', '\\']
    } else if u == 0x08 {
        seq!['\\', 'b']
    } else if u == 0x09 {
        seq!['\\', 't']
    } else if u == 0x0A {
        seq!['\\', 'n']
    } else if u == 0x0C {
        seq!['\\', 'f']
    } else if u == 0x0D {
        seq!['\\', 'r']
    } else if u < 0x20 {
        seq!['\\', 'u', '0', '0', hex_digit((u / 16) as int), hex_digit((u % 16) as int)]
    } else {
        seq![c]
    }
}

/// The characters of `s`, each written as inside a JSON string literal.
pub open spec fn json_escape(s: Seq<char>) -> Seq<char>
    decreases s.len(),
{
    if s.len() == 0 {
        Seq::empty()
    } else {
        json_escape_char(s[0]) + json_escape(s.drop_first())
    }
}

/// `s` written as a JSON string literal.
pub open spec fn json_string_literal(s: Seq<char>) -> Seq<char> {
    seq!['"'] + json_escape(s) + seq!['"']
}

/// The value of a hexadecimal digit (either case).
pub open spec fn hex_value(c: char) -> Option<int> {
    let u = c as u32;
    if 0x30 <= u <= 0x39 {
        Some(u - 0x30)
    } else if 0x61 <= u <= 0x66 {
        Some(u - 0x61 + 10)
    } else if 0x41 <= u <= 0x46 {
        Some(u - 0x41 + 10)
    } else {
        None
    }
}

/// The code point written by the four hexadecimal digits `t[0..4]`.
pub open spec fn hex4_value(t: Seq<char>) -> Option<int> {
    if t.len() >= 4 && hex_value(t[0]) is Some && hex_value(t[1]) is Some && hex_value(t[2]) is Some
        && hex_value(t[3]) is Some {
        Some(
            hex_value(t[0])->0 * 4096 + hex_value(t[1])->0 * 256 + hex_value(t[2])->0 * 16
                + hex_value(t[3])->0,
        )
    } else {
        None
    }
}

/// `c` followed by what `rest` reads as, if it reads as anything.
pub open spec fn prepend_read(c: char, rest: Option<Seq<char>>) -> Option<Seq<char>> {
    match rest {
        Some(r) => Some(seq![c] + r),
        None => None,
    }
}

/// The text that the inside of a JSON string literal stands for (RFC 8259,
/// section 7): unescaped characters other than the quote, the backslash and
/// the controls below U+0020 stand for themselves; `\"`, `\\`, `\/`,
/// `\b`, `\f`, `\n`, `\r`, `\t` and `\uXXXX` outside the surrogate range
/// stand for the character they name. Anything else (including surrogate
/// pairs, which this reading does not join) reads as nothing.
pub open spec fn json_unescape(t: Seq<char>) -> Option<Seq<char>>
    decreases t.len(),
{
    if t.len() == 0 {
        Some(Seq::empty())
    } else if t[0] == '\\' {
        if t.len() < 2 {
            None
        } else {
            let e = t[1];
            let rest = t.skip(2);
            if e == '"' || e == '\\' || e == '/' {
                prepend_read(e, json_unescape(rest))
            } else if e == 'b' {
                prepend_read(0x08u32 as char, json_unescape(rest))
            } else if e == 'f' {
                prepend_read(0x0Cu32 as char, json_unescape(rest))
            } else if e == 'n' {
                prepend_read(0x0Au32 as char, json_unescape(rest))
            } else if e == 'r' {
                prepend_read(0x0Du32 as char, json_unescape(rest))
            } else if e == 't' {
                prepend_read(0x09u32 as char, json_unescape(rest))
            } else if e == 'u' && t.len() >= 6 && hex4_value(t.skip(2)) is Some && !(0xD800
                <= hex4_value(t.skip(2))->0 <= 0xDFFF) {
                prepend_read((hex4_value(t.skip(2))->0 as u32) as char, json_unescape(t.skip(6)))
            } else {
                None
            }
        }
    } else if t[0] == '"' || (t[0] as u32) < 0x20 {
        None
    } else {
        prepend_read(t[0], json_unescape(t.drop_first()))
    }
}

/// Reading back what `json_escape` writes gives the text that was written.
pub proof fn lemma_json_unescape_escape(s: Seq<char>)
    ensures
        json_unescape(json_escape(s)) == Some(s),
    decreases s.len(),
{
    if s.len() > 0 {
        let c = s[0];
        let head = json_escape_char(c);
        let tail = json_escape(s.drop_first());
        let t = head + tail;
        lemma_json_unescape_escape(s.drop_first());
        assert(t.skip(head.len() as int) =~= tail);
        let u = c as u32;
        vstd::utf8::char_u32_cast(c, u);
        if u < 0x20 && u != 0x08 && u != 0x09 && u != 0x0A && u != 0x0C && u != 0x0D {
            assert(t.skip(2).take(4) =~= head.skip(2));
            assert(hex_value(hex_digit((u / 16) as int)) == Some((u / 16) as int));
            assert(hex_value(hex_digit((u % 16) as int)) == Some((u % 16) as int));
            assert(hex4_value(t.skip(2)) == Some(u as int));
        }
        assert(seq![c] + s.drop_first() =~= s);
    } else {
        assert(json_escape(s) =~= Seq::<char>::empty());
    }
}

/// Renders `s` with serde_json (`Value::String` through its `Display`).
/// Claimed: the result is the JSON string literal above; serde_json writes
/// a quote, the escaped characters and a quote, escaping exactly the quote,
/// the backslash and the bytes below 0x20 (`\b \t \n \f \r`, else
/// `\u00` and two lowercase hexadecimal digits).
#[verifier::external_body]
pub(crate) fn json_quote(s: &str) -> (r: String)
    ensures
        r@ == json_string_literal(s@),
{
    serde_json::Value::String(s.to_string()).to_string()
}

/// Appends the JSON string literal of `s` to `out`.
pub(crate) fn push_json_str(out: &mut Vec<char>, s: &str)
    ensures
        final(out)@ == old(out)@ + json_string_literal(s@),
{
    let q = json_quote(s);
    let qs = chars_of(q.as_str());
    append_chars(out, &qs);
}

} // verus!
