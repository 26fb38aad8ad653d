//! A line of text with a cursor. The cursor counts characters; one behind the
//! end stands at the end.

use vstd::prelude::*;

use crate::keybinds::KeyCode;
use crate::text::{chars_of, len, text_of};

verus! {

/// A line and its cursor.
#[verifier::ext_equal]
pub struct Line {
    pub text: Seq<char>,
    pub cursor: nat,
}

impl Line {
    /// Where the cursor stands.
    pub open spec fn at(self) -> nat {
        if self.cursor <= self.text.len() {
            self.cursor
        } else {
            self.text.len()
        }
    }

    pub open spec fn inserted(self, c: char) -> Line {
        Line { text: self.text.insert(self.at() as int, c), cursor: self.at() + 1 }
    }

    /// The character before the cursor goes.
    pub open spec fn backspaced(self) -> Line {
        if self.at() == 0 {
            Line { cursor: 0, ..self }
        } else {
            Line { text: self.text.remove(self.at() - 1), cursor: (self.at() - 1) as nat }
        }
    }

    /// The character at the cursor goes.
    pub open spec fn deleted(self) -> Line {
        Line {
            text: if self.at() < self.text.len() {
                self.text.remove(self.at() as int)
            } else {
                self.text
            },
            cursor: self.at(),
        }
    }

    /// What a cursor key does. Other keys do nothing.
    pub open spec fn key_pressed(self, code: KeyCode) -> Line {
        match code {
            KeyCode::Left => Line {
                cursor: if self.at() == 0 {
                    0
                } else {
                    (self.at() - 1) as nat
                },
                ..self
            },
            KeyCode::Right => Line {
                cursor: if self.at() < self.text.len() {
                    self.at() + 1
                } else {
                    self.at()
                },
                ..self
            },
            KeyCode::Home => Line { cursor: 0, ..self },
            KeyCode::End => Line { cursor: self.text.len(), ..self },
            KeyCode::Delete => self.deleted(),
            _ => self,
        }
    }
}

/// What was typed can be taken back: a backspace undoes an insertion.
pub proof fn backspace_undoes_insertion(line: Line, c: char)
    ensures
        line.inserted(c).backspaced() == (Line { cursor: line.at(), ..line }),
{
    assert(line.text.insert(line.at() as int, c).remove(line.at() as int) =~= line.text);
}

fn place(text: &String, cursor: usize) -> (r: usize)
    ensures
        r == (Line { text: text@, cursor: cursor as nat }).at(),
{
    let n: usize = len(text.as_str());
    if cursor <= n {
        cursor
    } else {
        n
    }
}

/// Insert a character at the cursor. Returns the new cursor.
pub fn insert_at(text: &mut String, cursor: usize, c: char) -> (r: usize)
    ensures
        (Line { text: final(text)@, cursor: r as nat }) == (Line {
            text: old(text)@,
            cursor: cursor as nat,
        }).inserted(c),
{
    let at: usize = place(text, cursor);
    let mut chars = chars_of(text.as_str());
    chars.insert(at, c);
    let n: usize = chars.len();
    *text = text_of(&chars, 0, n);
    assert(text@ =~= chars@);
    at + 1
}

/// Remove the character before the cursor. Returns the new cursor.
pub fn backspace_at(text: &mut String, cursor: usize) -> (r: usize)
    ensures
        (Line { text: final(text)@, cursor: r as nat }) == (Line {
            text: old(text)@,
            cursor: cursor as nat,
        }).backspaced(),
{
    let at: usize = place(text, cursor);
    if at == 0 {
        return 0;
    }
    let mut chars = chars_of(text.as_str());
    let _ = chars.remove(at - 1);
    *text = text_of(&chars, 0, chars.len());
    assert(text@ =~= chars@);
    at - 1
}

/// Apply a cursor key. Returns the new cursor.
pub fn handle_cursor_key(code: KeyCode, text: &mut String, cursor: usize) -> (r: usize)
    ensures
        (Line { text: final(text)@, cursor: r as nat }) == (Line {
            text: old(text)@,
            cursor: cursor as nat,
        }).key_pressed(code),
{
    let at: usize = place(text, cursor);
    let n: usize = len(text.as_str());
    match code {
        KeyCode::Left => if at == 0 {
            0
        } else {
            at - 1
        },
        KeyCode::Right => if at < n {
            at + 1
        } else {
            at
        },
        KeyCode::Home => 0,
        KeyCode::End => n,
        KeyCode::Delete => {
            if at < n {
                let mut chars = chars_of(text.as_str());
                let _ = chars.remove(at);
                *text = text_of(&chars, 0, chars.len());
                assert(text@ =~= chars@);
            }
            at
        },
        _ => cursor,
    }
}

} // verus!
