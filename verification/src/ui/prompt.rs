//! The interactive confirmation: what each key or typed answer means, the
//! edited command, the question shown and the clipboard sequence.
use crate::strs::{ascii_lowered, cat, is_ascii_text, lowercase, str_eq, to_lower, trim_text, trimmed};
use base64::Engine;
use vstd::prelude::*;

verus! {

/// What the user decided.
#[derive(Debug, Clone, PartialEq, Eq)]
pub enum UserAction {
    /// Run this command.
    Execute(String),
    /// Run nothing.
    Abort,
}

/// `UserAction` with its text as a character sequence.
pub enum ActionView {
    Execute(Seq<char>),
    Abort,
}

impl View for UserAction {
    type V = ActionView;

    open spec fn view(&self) -> ActionView {
        match self {
            UserAction::Execute(c) => ActionView::Execute(c@),
            UserAction::Abort => ActionView::Abort,
        }
    }
}

/// A key press as the prompt reads it.
#[derive(Debug, Clone, Copy, PartialEq, Eq, Structural)]
pub enum KeyPress {
    Enter,
    Esc,
    Char(char),
    Other,
}

/// What the prompt does next.
#[derive(Debug, Clone, Copy, PartialEq, Eq, Structural)]
pub enum PromptStep {
    /// Run the translated command.
    Run,
    /// Copy the command to the clipboard, then ask again.
    Copy,
    /// Copy the command to the clipboard, then run nothing.
    CopyAndStop,
    /// Ask for an edited command and run it.
    Edit,
    /// Run nothing.
    Abort,
    /// Ignore the key and wait for another.
    Wait,
}

/// The step that a key press (with Control held or not) asks for.
pub open spec fn key_step(key: KeyPress, ctrl: bool) -> PromptStep {
    match key {
        KeyPress::Enter => PromptStep::Run,
        KeyPress::Esc => PromptStep::Abort,
        KeyPress::Char(c) => if c == 'y' || c == 'Y' {
            PromptStep::Run
        } else if c == 'c' || c == 'C' {
            if ctrl {
                PromptStep::Abort
            } else {
                PromptStep::Copy
            }
        } else if c == 'e' || c == 'E' {
            PromptStep::Edit
        } else if c == 'q' || c == 'n' || c == 'N' {
            PromptStep::Abort
        } else {
            PromptStep::Wait
        },
        KeyPress::Other => PromptStep::Wait,
    }
}

/// The step that a typed answer asks for, once trimmed and lowercased.
pub open spec fn answer_step(clean: Seq<char>) -> PromptStep {
    if clean.len() == 0 || clean == "y"@ || clean == "yes"@ {
        PromptStep::Run
    } else if clean == "c"@ || clean == "copy"@ {
        PromptStep::CopyAndStop
    } else if clean == "e"@ || clean == "edit"@ {
        PromptStep::Edit
    } else {
        PromptStep::Abort
    }
}

/// The command after an edit: the typed line trimmed, unless nothing was
/// read or it is blank, in which case the command is kept.
pub open spec fn edited(input: Option<Seq<char>>, initial: Seq<char>) -> Seq<char> {
    match input {
        Some(line) => if trimmed(line).len() > 0 {
            trimmed(line)
        } else {
            initial
        },
        None => initial,
    }
}

/// The question asked before running `command`.
pub open spec fn question_text(command: Seq<char>) -> Seq<char> {
    "\x1b[1;36m╭─▶ \x1b[1;37mExecute \x1b[1;32m`"@ + command
        + "`\x1b[1;37m ? \x1b[1;33m[Enter/y: Run | c: Copy | e: Edit | q: Abort]\x1b[1;36m ❯ \x1b[0m"@
}

/// The OSC 52 terminal sequence that puts base64 text `encoded` on the clipboard.
pub open spec fn osc52(encoded: Seq<char>) -> Seq<char> {
    "\x1b]52;c;"@ + encoded + "\x07"@
}

/// The character of a six-bit value in the standard base64 alphabet
/// (`A`–`Z`, `a`–`z`, `0`–`9`, `+`, `/`).
pub open spec fn b64_digit(v: int) -> char {
    if v < 26 {
        ('A' as int + v) as char
    } else if v < 52 {
        ('a' as int + (v - 26)) as char
    } else if v < 62 {
        ('0' as int + (v - 52)) as char
    } else if v == 62 {
        '+'
    } else {
        '/'
    }
}

/// The standard base64 encoding of bytes: each group of three bytes gives four
/// characters of six bits each; a last group of one or two bytes is padded
/// with `=` to four characters.
pub open spec fn b64_bytes(b: Seq<u8>) -> Seq<char>
    decreases b.len(),
{
    if b.len() == 0 {
        Seq::empty()
    } else {
        let x: int = b[0] as int;
        let y: int = if b.len() > 1 { b[1] as int } else { 0 };
        let z: int = if b.len() > 2 { b[2] as int } else { 0 };
        let c0 = b64_digit(x / 4);
        let c1 = b64_digit((x % 4) * 16 + y / 16);
        let c2 = b64_digit((y % 16) * 4 + z / 64);
        let c3 = b64_digit(z % 64);
        if b.len() == 1 {
            seq![c0, c1, '=', '=']
        } else if b.len() == 2 {
            seq![c0, c1, c2, '=']
        } else {
            seq![c0, c1, c2, c3] + b64_bytes(b.skip(3))
        }
    }
}

/// The standard base64 encoding (with padding) of the UTF-8 bytes of a text.
pub open spec fn base64_standard(s: Seq<char>) -> Seq<char> {
    b64_bytes(vstd::utf8::encode_utf8(s))
}

/// `base64::engine::general_purpose::STANDARD.encode` on the UTF-8 bytes of
/// `s`. Claimed: the standard base64 alphabet, three bytes to four
/// characters, with `=` padding (`base64_standard`).
#[verifier::external_body]
fn base64_encode(s: &str) -> (r: String)
    ensures
        r@ == base64_standard(s@),
{
    base64::engine::general_purpose::STANDARD.encode(s)
}

/// The decisions of the interactive confirmation.
pub struct InteractivePrompt;

impl InteractivePrompt {
    /// The step a key press asks for.
    pub fn key_step(key: KeyPress, ctrl: bool) -> (r: PromptStep)
        ensures
            r == key_step(key, ctrl),
    {
        match key {
            KeyPress::Enter => PromptStep::Run,
            KeyPress::Esc => PromptStep::Abort,
            KeyPress::Char(c) => if c == 'y' || c == 'Y' {
                PromptStep::Run
            } else if c == 'c' || c == 'C' {
                if ctrl {
                    PromptStep::Abort
                } else {
                    PromptStep::Copy
                }
            } else if c == 'e' || c == 'E' {
                PromptStep::Edit
            } else if c == 'q' || c == 'n' || c == 'N' {
                PromptStep::Abort
            } else {
                PromptStep::Wait
            },
            KeyPress::Other => PromptStep::Wait,
        }
    }

    /// The step a typed answer line asks for (where keys cannot be read one by one).
    pub fn answer_step(line: &str) -> (r: PromptStep)
        ensures
            r == answer_step(lowercase(trimmed(line@))),
            is_ascii_text(trimmed(line@)) ==> r == answer_step(ascii_lowered(trimmed(line@))),
    {
        let trimmed_line = trim_text(line);
        let clean = to_lower(trimmed_line.as_str());
        InteractivePrompt::clean_answer_step(clean.as_str())
    }

    /// The step an answer asks for, already trimmed and lowercased.
    pub fn clean_answer_step(clean: &str) -> (r: PromptStep)
        ensures
            r == answer_step(clean@),
    {
        if clean.unicode_len() == 0 || str_eq(clean, "y") || str_eq(clean, "yes") {
            PromptStep::Run
        } else if str_eq(clean, "c") || str_eq(clean, "copy") {
            PromptStep::CopyAndStop
        } else if str_eq(clean, "e") || str_eq(clean, "edit") {
            PromptStep::Edit
        } else {
            PromptStep::Abort
        }
    }

    /// The command to run after an edit: `input` is the line read, if any.
    pub fn edited_command(input: Option<String>, initial: &str) -> (r: String)
        ensures
            r@ == edited(
                match input {
                    Some(l) => Some(l@),
                    None => None,
                },
                initial@,
            ),
    {
        match input {
            Some(line) => {
                let t = trim_text(line.as_str());
                if t.as_str().unicode_len() > 0 {
                    t
                } else {
                    initial.to_owned()
                }
            },
            None => initial.to_owned(),
        }
    }

    /// The question asked before running `command`.
    pub fn question(command: &str) -> (r: String)
        ensures
            r@ == question_text(command@),
    {
        let mut r = cat("\x1b[1;36m╭─▶ \x1b[1;37mExecute \x1b[1;32m`", command);
        r.append("`\x1b[1;37m ? \x1b[1;33m[Enter/y: Run | c: Copy | e: Edit | q: Abort]\x1b[1;36m ❯ \x1b[0m");
        r
    }

    /// The terminal sequence that copies `text` to the clipboard.
    pub fn clipboard_sequence(text: &str) -> (r: String)
        ensures
            r@ == osc52(base64_standard(text@)),
    {
        let b64 = base64_encode(text);
        InteractivePrompt::osc52_sequence(b64.as_str())
    }

    /// The terminal sequence that puts the base64 text `encoded` on the clipboard.
    pub fn osc52_sequence(encoded: &str) -> (r: String)
        ensures
            r@ == osc52(encoded@),
    {
        let mut r = cat("\x1b]52;c;", encoded);
        r.append("\x07");
        r
    }
}

} // verus!
