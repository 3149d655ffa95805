//! The read-eval surface's one decision: whether an input line clears the
//! conversation or becomes the user's prompt.

use vstd::prelude::*;

verus! {

/// What std's str::trim returns: the text without leading and trailing
/// whitespace.
pub uninterp spec fn trimmed(s: Seq<char>) -> Seq<char>;

/// Relies on str::trim: the trimmed text is a function of the characters
/// alone.
#[verifier::external_body]
fn trim_line(s: &str) -> (r: &str)
    ensures
        r@ == trimmed(s@),
{
    s.trim()
}

/// How one input line is handled.
#[derive(Clone, Copy, Debug, PartialEq, Eq, Structural)]
pub enum LineAction {
    /// Reset the conversation to the one system message; the model is not
    /// consulted.
    Clear,
    /// Append the line as a user message and run one turn.
    Prompt,
}

/// Classify one input line: exactly the literal line "clear", once trimmed,
/// clears the conversation; every other line is a prompt.
pub fn classify_line(line: &str) -> (r: LineAction)
    ensures
        (r is Clear) == (trimmed(line@) == "clear"@),
        (r is Prompt) == (trimmed(line@) != "clear"@),
{
    let t: String = trim_line(line).to_owned();
    let c: String = "clear".to_owned();
    if t.eq(&c) {
        LineAction::Clear
    } else {
        LineAction::Prompt
    }
}

} // verus!
