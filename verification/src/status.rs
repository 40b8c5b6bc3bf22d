//! The words for an HTTP status, as the `http` crate displays them.

use vstd::prelude::*;

use crate::text::{decimal, decimal_digits};

verus! {

/// The text by which `http::StatusCode` displays a status: the code, a space
/// and the canonical reason phrase. `None` for a number that is no status.
pub uninterp spec fn status_line(code: u16) -> Option<Seq<char>>;

/// Calls `StatusCode::from_u16` and displays the status that it gives. The
/// outcome depends on the code alone.
#[verifier::external_body]
pub(crate) fn status_text(code: u16) -> (line: Option<String>)
    ensures
        match line {
            Some(text) => status_line(code) == Some(text@),
            None => status_line(code) is None,
        },
{
    match reqwest::StatusCode::from_u16(code) {
        Ok(status) => Some(status.to_string()),
        Err(_) => None,
    }
}

/// The words for a status, given its displayed line if it has one: that
/// line, or the bare number where it has none.
pub open spec fn status_words_from(code: u16, line: Option<Seq<char>>) -> Seq<char> {
    match line {
        Some(text) => text,
        None => decimal_digits(code as nat),
    }
}

/// The words for a status in a message.
pub open spec fn status_words(code: u16) -> Seq<char> {
    status_words_from(code, status_line(code))
}

/// Chooses the words for a status, given its displayed line if it has one.
pub fn describe_status_with(code: u16, line: Option<String>) -> (words: String)
    ensures
        words@ == status_words_from(code, line.deep_view()),
{
    match line {
        Some(text) => text,
        None => decimal(code),
    }
}

/// The words for a status in a message.
pub fn describe_status(code: u16) -> (words: String)
    ensures
        words@ == status_words(code),
{
    describe_status_with(code, status_text(code))
}

} // verus!
