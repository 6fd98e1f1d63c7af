//! Answer verification: a guess counts when the normalized message
//! contains the answer as a contiguous substring.  The substring rule
//! knowingly accepts the answer inside unrelated longer words; that is a
//! documented limitation of the game, not an accident.

use vstd::prelude::*;
use crate::text::{contains_seq, contains_str, normalize_spec, normalize_text};

verus! {

/// Case- and whitespace-normalization-insensitive substring containment:
/// the answer occurs in the message after the message is trimmed,
/// stripped of spaces and lowercased.
pub open spec fn matches_spec(text: Seq<char>, answer: Seq<char>) -> bool {
    contains_seq(normalize_spec(text), answer)
}

/// Whether the message `text` counts as guessing `answer`.
pub fn matches(text: &str, answer: &str) -> (r: bool)
    ensures
        r == matches_spec(text@, answer@),
{
    let norm = normalize_text(text);
    contains_str(norm.as_str(), answer)
}

} // verus!
