//! Field parsers: turn raw text into validated domain values, or a
//! `ParsingError` naming the rejected input.
//!
//! Case policy for status names: ASCII case-insensitive match against the
//! canonical names `ToDo`, `InProgress` and `Done`.

use vstd::prelude::*;
use vstd::string::StringExecFns;
use crate::ticket::{Status, TicketDescription, TicketTitle};

verus! {

/// A validation failure, carrying a human-readable message that names
/// the offending input.
#[derive(Debug)]
pub struct ParsingError {
    message: String,
}

impl View for ParsingError {
    type V = Seq<char>;

    closed spec fn view(&self) -> Seq<char> {
        self.message@
    }
}

impl ParsingError {
    pub(crate) fn new(message: String) -> (e: Self)
        ensures
            e@ == message@,
    {
        ParsingError { message }
    }

    /// The message describing why the input was rejected.
    pub fn message(&self) -> (r: &str)
        ensures
            r@ == self@,
    {
        self.message.as_str()
    }
}

/// Whether two characters are the same up to ASCII letter case.
pub open spec fn same_letter(a: char, b: char) -> bool {
    ||| a == b
    ||| (65 <= a as u32 <= 90 && a as u32 + 32 == b as u32)
    ||| (65 <= b as u32 <= 90 && b as u32 + 32 == a as u32)
}

/// Whether two texts are equal up to ASCII letter case.
pub open spec fn ci_equal(a: Seq<char>, b: Seq<char>) -> bool {
    a.len() == b.len() && forall|i: int| 0 <= i < a.len() ==> same_letter(a[i], b[i])
}

/// The status named by a text, if any: an ASCII case-insensitive match
/// against the canonical status names.
pub open spec fn status_of_text(s: Seq<char>) -> Option<Status> {
    if ci_equal(s, "todo"@) {
        Some(Status::ToDo)
    } else if ci_equal(s, "inprogress"@) {
        Some(Status::InProgress)
    } else if ci_equal(s, "done"@) {
        Some(Status::Done)
    } else {
        None
    }
}

fn same_letter_exec(a: char, b: char) -> (r: bool)
    ensures
        r == same_letter(a, b),
{
    let ua: u32 = a as u32;
    let ub: u32 = b as u32;
    a == b || (65 <= ua && ua <= 90 && ua + 32 == ub) || (65 <= ub && ub <= 90 && ub + 32 == ua)
}

fn ci_equal_exec(a: &str, b: &str) -> (r: bool)
    ensures
        r == ci_equal(a@, b@),
{
    let len = a.unicode_len();
    if len != b.unicode_len() {
        return false;
    }
    let mut i: usize = 0;
    while i < len
        invariant
            len == a@.len(),
            len == b@.len(),
            i <= len,
            forall|j: int| 0 <= j < i ==> same_letter(a@[j], b@[j]),
        decreases len - i,
    {
        if !same_letter_exec(a.get_char(i), b.get_char(i)) {
            return false;
        }
        i = i + 1;
    }
    true
}

/// Parse a status name. Exactly the texts that name a status (ASCII
/// case-insensitively) are accepted; anything else fails with a message
/// naming the input.
pub fn parse_status(text: &str) -> (r: Result<Status, ParsingError>)
    ensures
        match r {
            Ok(status) => status_of_text(text@) == Some(status),
            Err(e) => status_of_text(text@) is None && e@ == "not a valid status: "@ + text@,
        },
{
    if ci_equal_exec(text, "todo") {
        Ok(Status::ToDo)
    } else if ci_equal_exec(text, "inprogress") {
        Ok(Status::InProgress)
    } else if ci_equal_exec(text, "done") {
        Ok(Status::Done)
    } else {
        let mut message = String::from_str("not a valid status: ");
        message.append(text);
        Err(ParsingError::new(message))
    }
}

impl Status {
    /// Parse a status name; the named parser `parse_status`, kept under
    /// the conventional name for string-derived parsing.
    pub fn from_str(text: &str) -> (r: Result<Status, ParsingError>)
        ensures
            match r {
                Ok(status) => status_of_text(text@) == Some(status),
                Err(e) => status_of_text(text@) is None && e@ == "not a valid status: "@
                    + text@,
            },
    {
        parse_status(text)
    }
}

/// Parse a ticket title: any non-empty text is accepted and kept as it
/// is; the empty text fails.
pub fn parse_title(text: &str) -> (r: Result<TicketTitle, ParsingError>)
    ensures
        match r {
            Ok(title) => text@.len() > 0 && title@ == text@,
            Err(e) => text@.len() == 0 && e@ == "a title cannot be empty"@,
        },
{
    if text.is_empty() {
        Err(ParsingError::new(String::from_str("a title cannot be empty")))
    } else {
        Ok(TicketTitle::from_checked(text.to_owned()))
    }
}

/// Parse a ticket description: any non-empty text is accepted and kept
/// as it is; the empty text fails.
pub fn parse_description(text: &str) -> (r: Result<TicketDescription, ParsingError>)
    ensures
        match r {
            Ok(description) => text@.len() > 0 && description@ == text@,
            Err(e) => text@.len() == 0 && e@ == "a description cannot be empty"@,
        },
{
    if text.is_empty() {
        Err(ParsingError::new(String::from_str("a description cannot be empty")))
    } else {
        Ok(TicketDescription::from_checked(text.to_owned()))
    }
}

} // verus!
