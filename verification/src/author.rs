//! The authors whose commits are left unchecked.

use crate::config::Config;
use vstd::prelude::*;

verus! {

/// What the regular expression `pattern` makes of `text`: whether it
/// matches somewhere in it, or the sentence that says why `pattern` is no
/// regular expression.
pub uninterp spec fn regex_match(pattern: Seq<char>, text: Seq<char>) -> Result<bool, Seq<char>>;

/// The value of a match's result.
pub open spec fn match_outcome(matched: Result<bool, String>) -> Result<bool, Seq<char>> {
    match matched {
        Ok(found) => Ok(found),
        Err(error) => Err(error@),
    }
}

/// Compiles `pattern` with `regex::Regex::new` and asks `is_match` whether
/// it matches anywhere in `text`. The result depends on the two texts
/// alone: a pattern that does not compile gives the error as `Display`
/// shows it.
#[verifier::external_body]
fn is_match(pattern: &str, text: &str) -> (matched: Result<bool, String>)
    ensures
        match_outcome(matched) == regex_match(pattern@, text@),
{
    match regex::Regex::new(pattern) {
        Ok(regex) => Ok(regex.is_match(text)),
        Err(error) => Err(error.to_string()),
    }
}

/// Whether the commits of `author` are left unchecked under `config`: what
/// the author pattern makes of `author` where one is set, and no where none
/// is set.
pub open spec fn author_ignored(config: &Config, author: Seq<char>) -> Result<bool, Seq<char>> {
    match config.spec_ignore_author_re() {
        Some(pattern) => regex_match(pattern, author),
        None => Ok(false),
    }
}

/// Whether the commits of `author` are left unchecked under `config`: where
/// an author pattern is set, whether it matches `author`; never where none
/// is set. A pattern that is no regular expression is an error.
pub fn ignores_author(config: &Config, author: &str) -> (ignored: Result<bool, String>)
    ensures
        match_outcome(ignored) == author_ignored(config, author@),
{
    match config.ignore_author_re() {
        Some(pattern) => is_match(pattern, author),
        None => Ok(false),
    }
}

} // verus!
