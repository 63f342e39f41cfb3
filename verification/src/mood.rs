//! The grammatical mood of a word, as far as a word list can tell it.

use vstd::prelude::*;

verus! {

/// What the word list says of `word`: `Some(true)` for a verb in the
/// imperative, `Some(false)` for a word that is known not to be one, and
/// nothing for a word that the list does not hold.
pub uninterp spec fn imperative_mood(word: Seq<char>) -> Option<bool>;

/// Asks `imperative::Mood::is_imperative` about `word`: the answer depends
/// on the word alone, and `imperative_mood` is its name.
#[verifier::external_body]
pub(crate) fn is_imperative(word: &str) -> (mood: Option<bool>)
    ensures
        mood == imperative_mood(word@),
{
    imperative::Mood::new().is_imperative(word)
}

} // verus!
