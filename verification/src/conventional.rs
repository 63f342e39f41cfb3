//! The structured grammar: `type(scope)!: description`, then a body and
//! trailers, each after a blank line.

use crate::style::Style;
use crate::text::opt_text;
use vstd::prelude::*;

verus! {

/// A message read by the structured grammar.
#[derive(Clone, Debug, PartialEq, Eq)]
pub struct Commit<'c> {
    /// The commit's type, such as `feat`.
    pub type_: &'c str,
    /// The scope, where the header names one in parentheses.
    pub scope: Option<&'c str>,
    /// Whether the commit is marked as a breaking change.
    pub breaking: bool,
    /// What follows the colon of the header.
    pub description: &'c str,
    /// The free text after the header, if there is any.
    pub body: Option<&'c str>,
}

/// The value of a [`Commit`].
pub struct CommitView {
    pub type_: Seq<char>,
    pub scope: Option<Seq<char>>,
    pub breaking: bool,
    pub description: Seq<char>,
    pub body: Option<Seq<char>>,
}

impl View for Commit<'_> {
    type V = CommitView;

    open spec fn view(&self) -> CommitView {
        CommitView {
            type_: self.type_@,
            scope: opt_text(self.scope),
            breaking: self.breaking,
            description: self.description@,
            body: opt_text(self.body),
        }
    }
}

/// What the structured grammar makes of `message`: its parts, or the
/// sentence that says why it is not in that format.
pub uninterp spec fn conventional_parse(message: Seq<char>) -> Result<CommitView, Seq<char>>;

/// The value of what a parse gave.
pub open spec fn outcome(parsed: Result<Commit<'_>, String>) -> Result<CommitView, Seq<char>> {
    match parsed {
        Ok(commit) => Ok(commit@),
        Err(error) => Err(error@),
    }
}

/// Parses `message` with `git_conventional::Commit::parse`. On success this
/// takes over type, scope, breaking mark, description and body as they were
/// parsed; on failure, the error as `Display` shows it.
#[verifier::external_body]
fn parse_commit<'c>(message: &'c str) -> (parsed: Result<Commit<'c>, String>)
    ensures
        outcome(parsed) == conventional_parse(message@),
{
    match git_conventional::Commit::parse(message) {
        Ok(commit) => Ok(
            Commit {
                type_: commit.type_().as_str(),
                scope: commit.scope().map(|scope| scope.as_str()),
                breaking: commit.breaking(),
                description: commit.description(),
                body: commit.body(),
            },
        ),
        Err(error) => Err(error.to_string()),
    }
}

impl<'c> Commit<'c> {
    /// Reads `message` by the structured grammar. It fails where the header
    /// is not `type(scope)!: description`, with scope and `!` optional, or
    /// where what follows the header is not set off by a blank line.
    pub fn parse(message: &'c str) -> (parsed: Result<Self, String>)
        ensures
            outcome(parsed) == conventional_parse(message@),
    {
        parse_commit(message)
    }
}

impl<'c> Style for Commit<'c> {
    open spec fn subject_text(&self) -> Seq<char> {
        self.description@
    }

    open spec fn body_text(&self) -> Option<Seq<char>> {
        opt_text(self.body)
    }

    open spec fn type_text(&self) -> Option<Seq<char>> {
        Some(self.type_@)
    }

    open spec fn scope_text(&self) -> Option<Seq<char>> {
        opt_text(self.scope)
    }

    fn subject(&self) -> (subject: &str) {
        self.description
    }

    fn body(&self) -> (body: Option<&str>) {
        self.body
    }

    fn type_(&self) -> (type_: Option<&str>) {
        Some(self.type_)
    }

    fn scope(&self) -> (scope: Option<&str>) {
        self.scope
    }
}

} // verus!
