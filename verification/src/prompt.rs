//! The screen that asks for the user's pseudo before the chat starts.
use vstd::prelude::*;
use crate::app::{KeyCode, KeyPress, is_interrupt};
use crate::text::{trim, trim_start, trim_end, is_whitespace, trim_text, chars_of, push_char, pop_char};

verus! {

/// The pseudo being typed.
pub struct PseudoPrompt {
    pub input: String,
}

/// What a key press on the pseudo screen leads to.
pub enum PromptStep {
    /// Keep asking.
    Pending,
    /// The user interrupted (Control+C): the program ends.
    Quit,
    /// The user confirmed this pseudo.
    Chosen(String),
}

/// The typed text after a key press on the pseudo screen.
pub open spec fn prompt_input_after(input: Seq<char>, k: KeyPress) -> Seq<char> {
    if is_interrupt(k) {
        input
    } else {
        match k.code {
            KeyCode::Backspace => if input.len() > 0 {
                input.drop_last()
            } else {
                input
            },
            KeyCode::Char(c) => input.push(c),
            _ => input,
        }
    }
}

impl PseudoPrompt {
    /// Nothing typed yet.
    pub fn new() -> (r: PseudoPrompt)
        ensures
            r.input@ == Seq::<char>::empty(),
    {
        PseudoPrompt { input: String::new() }
    }

    /// The reaction to a key press: Control+C quits; Enter confirms the
    /// typed text without surrounding whitespace, unless that is empty;
    /// Backspace removes the last character; other characters are typed.
    pub fn handle_key(&mut self, key: KeyPress) -> (r: PromptStep)
        ensures
            final(self).input@ == prompt_input_after(old(self).input@, key),
            is_interrupt(key) ==> r is Quit,
            !is_interrupt(key) && key.code == KeyCode::Enter && trim(old(self).input@).len() > 0
                ==> (r matches PromptStep::Chosen(p) && p@ == trim(old(self).input@)),
            !is_interrupt(key) && !(key.code == KeyCode::Enter && trim(old(self).input@).len() > 0)
                ==> r is Pending,
    {
        if key.ctrl && key.code == KeyCode::Char('c') {
            return PromptStep::Quit;
        }
        match key.code {
            KeyCode::Enter => {
                let trimmed = trim_text(self.input.as_str());
                if chars_of(trimmed.as_str()).len() > 0 {
                    PromptStep::Chosen(trimmed)
                } else {
                    PromptStep::Pending
                }
            },
            KeyCode::Backspace => {
                pop_char(&mut self.input);
                PromptStep::Pending
            },
            KeyCode::Char(c) => {
                push_char(&mut self.input, c);
                PromptStep::Pending
            },
            KeyCode::Other => PromptStep::Pending,
        }
    }
}

/// Removing leading whitespace leaves a text that is empty or starts with
/// something else.
pub proof fn lemma_trim_start_edge(s: Seq<char>)
    ensures
        trim_start(s).len() == 0 || !is_whitespace(trim_start(s)[0]),
        trim_start(s).len() <= s.len(),
        trim_start(s) == s.skip(s.len() - trim_start(s).len()),
    decreases s.len(),
{
    if s.len() > 0 && is_whitespace(s[0]) {
        lemma_trim_start_edge(s.drop_first());
        assert(s.drop_first().skip(s.drop_first().len() - trim_start(s).len()) =~= s.skip(
            s.len() - trim_start(s).len(),
        ));
    } else {
        assert(s.skip(0) =~= s);
    }
}

/// Removing trailing whitespace leaves a prefix that is empty or ends with
/// something else.
pub proof fn lemma_trim_end_edge(s: Seq<char>)
    ensures
        trim_end(s).len() == 0 || !is_whitespace(trim_end(s).last()),
        trim_end(s).len() <= s.len(),
        trim_end(s) == s.take(trim_end(s).len() as int),
    decreases s.len(),
{
    if s.len() > 0 && is_whitespace(s.last()) {
        lemma_trim_end_edge(s.drop_last());
        assert(s.drop_last().take(trim_end(s).len() as int) =~= s.take(trim_end(s).len() as int));
    } else {
        assert(s.take(s.len() as int) =~= s);
    }
}

/// A confirmed pseudo is never blank and never begins or ends with
/// whitespace.
pub proof fn law_chosen_pseudo_is_trimmed(input: Seq<char>)
    requires
        trim(input).len() > 0,
    ensures
        !is_whitespace(trim(input)[0]),
        !is_whitespace(trim(input).last()),
{
    lemma_trim_start_edge(input);
    let t = trim_start(input);
    lemma_trim_end_edge(t);
    assert(trim(input) == t.take(trim(input).len() as int));
    assert(trim(input)[0] == t[0]);
}

} // verus!
