//! Building the text of diagnostic and log lines.
use vstd::prelude::*;
use vstd::string::*;

verus! {

/// Appends one character to a string.
///
/// Calls `String::push`; the contract takes from its documentation that the
/// character is added at the end and nothing else changes.
#[verifier::external_body]
pub(crate) fn push_char(text: &mut String, c: char)
    ensures
        final(text)@ == old(text)@.push(c),
{
    text.push(c);
}

/// The text `prefix` followed by the character `c`.
pub fn with_char(prefix: &str, c: char) -> (text: String)
    ensures
        text@ == prefix@.push(c),
{
    let mut text = String::from_str(prefix);
    push_char(&mut text, c);
    text
}

/// The text `prefix` followed by `rest`.
pub fn with_text(prefix: &str, rest: &str) -> (text: String)
    ensures
        text@ == prefix@ + rest@,
{
    let mut text = String::from_str(prefix);
    text.append(rest);
    text
}

} // verus!
