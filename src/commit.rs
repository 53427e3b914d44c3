//! The user's confirmation and the commit invocation.
use vstd::prelude::*;
use crate::text::{lowercase_text, lowercased, trim_text, trimmed};

verus! {

/// Whether an answer, already trimmed and lowercased, is the affirmative `y`.
pub open spec fn is_yes(s: Seq<char>) -> bool {
    s == seq!['y']
}

/// Whether a line typed by the user confirms the commit: once trimmed and
/// lowercased it is `y`.
pub open spec fn is_affirmative(line: Seq<char>) -> bool {
    is_yes(lowercased(trimmed(line)))
}

/// Tells whether a trimmed and lowercased answer is the affirmative `y`.
pub fn is_yes_answer(s: &str) -> (r: bool)
    ensures
        r == is_yes(s@),
{
    if s.unicode_len() != 1 {
        return false;
    }
    let c = s.get_char(0);
    assert(c == 'y' ==> s@ =~= seq!['y']);
    c == 'y'
}

/// Tells whether a line typed by the user confirms the commit.
pub fn confirms(line: &str) -> (r: bool)
    ensures
        r == is_affirmative(line@),
{
    let t = trim_text(line);
    let l = lowercase_text(t.as_str());
    is_yes_answer(l.as_str())
}

/// The arguments of the version-control tool that commit with a message: the
/// message is one argument, passed through unchanged.
pub fn commit_args(message: &str) -> (r: Vec<String>)
    ensures
        r@.len() == 3,
        r@[0]@ == "commit"@,
        r@[1]@ == "-m"@,
        r@[2]@ == message@,
{
    let mut args: Vec<String> = Vec::new();
    args.push(String::from_str("commit"));
    args.push(String::from_str("-m"));
    args.push(String::from_str(message));
    args
}

} // verus!
