//! What every grammar gives of a message it has read.

use crate::config;
use crate::conventional::conventional_parse;
use crate::conventional;
use crate::no_style::body_of;
use crate::no_style::subject_of;
use crate::no_style;
use vstd::prelude::*;

verus! {

/// The parts of a parsed message that the rules read. Types and scopes are
/// compared without regard to case.
pub trait Style {
    /// The subject: the one-line summary of the message.
    spec fn subject_text(&self) -> Seq<char>;

    /// The free text that follows the subject, if there is any.
    spec fn body_text(&self) -> Option<Seq<char>>;

    /// The commit's type, where the grammar has one.
    spec fn type_text(&self) -> Option<Seq<char>>;

    /// The commit's scope, where the grammar has one and the message names it.
    spec fn scope_text(&self) -> Option<Seq<char>>;

    fn subject(&self) -> (subject: &str)
        ensures
            subject@ == self.subject_text(),
    ;

    fn body(&self) -> (body: Option<&str>)
        ensures
            crate::text::opt_text(body) == self.body_text(),
    ;

    fn type_(&self) -> (type_: Option<&str>)
        ensures
            crate::text::opt_text(type_) == self.type_text(),
    ;

    fn scope(&self) -> (scope: Option<&str>)
        ensures
            crate::text::opt_text(scope) == self.scope_text(),
    ;
}

/// A message read by one of the two grammars.
#[derive(Clone, Debug)]
pub enum Parsed<'c> {
    Conventional(conventional::Commit<'c>),
    NoStyle(no_style::Commit<'c>),
}

/// The value of a [`Parsed`].
pub enum ParsedView {
    Conventional(conventional::CommitView),
    NoStyle(no_style::CommitView),
}

impl View for Parsed<'_> {
    type V = ParsedView;

    open spec fn view(&self) -> ParsedView {
        match *self {
            Parsed::Conventional(commit) => ParsedView::Conventional(commit@),
            Parsed::NoStyle(commit) => ParsedView::NoStyle(commit@),
        }
    }
}

/// What the rules read of a parsed message: its subject and, where the
/// grammar has one, its type.
pub struct Parts {
    pub subject: Seq<char>,
    pub type_: Option<Seq<char>>,
}

impl ParsedView {
    /// The parts that the rules read: of a structured message the
    /// description and the type, of one without structure the first line.
    pub open spec fn parts(self) -> Parts {
        match self {
            ParsedView::Conventional(commit) => Parts {
                subject: commit.description,
                type_: Some(commit.type_),
            },
            ParsedView::NoStyle(commit) => Parts { subject: commit.raw_subject, type_: None },
        }
    }
}

/// What the grammar `style` makes of `message`: the message with all its
/// parts, or the sentence that says why it is not in that format. The
/// grammar without structure reads every message.
pub open spec fn parse_result(style: config::Style, message: Seq<char>) -> Result<
    ParsedView,
    Seq<char>,
> {
    match style {
        config::Style::Conventional => match conventional_parse(message) {
            Ok(commit) => Ok(ParsedView::Conventional(commit)),
            Err(error) => Err(error),
        },
        config::Style::NoStyle => Ok(
            ParsedView::NoStyle(
                no_style::CommitView { raw_subject: subject_of(message), body: body_of(message) },
            ),
        ),
    }
}

/// What the grammar `style` gives the rules to read of `message`.
pub open spec fn parse_outcome(style: config::Style, message: Seq<char>) -> Result<
    Parts,
    Seq<char>,
> {
    match parse_result(style, message) {
        Ok(parsed) => Ok(parsed.parts()),
        Err(error) => Err(error),
    }
}

/// The value of what a parse gave.
pub open spec fn parsed_view(parsed: Result<Parsed<'_>, String>) -> Result<ParsedView, Seq<char>> {
    match parsed {
        Ok(parsed) => Ok(parsed@),
        Err(error) => Err(error@),
    }
}

/// What a parse gave the rules to read.
pub open spec fn outcome(parsed: Result<Parsed<'_>, String>) -> Result<Parts, Seq<char>> {
    match parsed {
        Ok(parsed) => Ok(parsed@.parts()),
        Err(error) => Err(error@),
    }
}

impl<'c> Parsed<'c> {
    /// Reads `message` with the grammar `style`: what comes back holds
    /// every part that the grammar gives, under the variant of that grammar.
    pub fn parse(style: config::Style, message: &'c str) -> (parsed: Result<Self, String>)
        ensures
            parsed_view(parsed) == parse_result(style, message@),
            outcome(parsed) == parse_outcome(style, message@),
    {
        match style {
            config::Style::Conventional => match conventional::Commit::parse(message) {
                Ok(commit) => Ok(Parsed::Conventional(commit)),
                Err(error) => Err(error),
            },
            config::Style::NoStyle => match no_style::Commit::parse(message) {
                Ok(commit) => Ok(Parsed::NoStyle(commit)),
                Err(error) => Err(error),
            },
        }
    }

    /// The subject: the description of a structured message, the first line
    /// of one without structure.
    pub fn subject(&self) -> (subject: &'c str)
        ensures
            subject@ == self@.parts().subject,
    {
        match self {
            Parsed::Conventional(commit) => commit.description,
            Parsed::NoStyle(commit) => commit.raw_subject,
        }
    }

    /// The free text after the subject, if there is any.
    pub fn body(&self) -> (body: Option<&'c str>)
        ensures
            crate::text::opt_text(body) == match self@ {
                ParsedView::Conventional(commit) => commit.body,
                ParsedView::NoStyle(commit) => commit.body,
            },
    {
        match self {
            Parsed::Conventional(commit) => commit.body,
            Parsed::NoStyle(commit) => commit.body,
        }
    }

    /// The commit's type; a message without structure has none.
    pub fn type_(&self) -> (type_: Option<&'c str>)
        ensures
            crate::text::opt_text(type_) == self@.parts().type_,
    {
        match self {
            Parsed::Conventional(commit) => Some(commit.type_),
            Parsed::NoStyle(_) => None,
        }
    }

    /// The commit's scope; a message without structure has none.
    pub fn scope(&self) -> (scope: Option<&'c str>)
        ensures
            crate::text::opt_text(scope) == match self@ {
                ParsedView::Conventional(commit) => commit.scope,
                ParsedView::NoStyle(_) => None,
            },
    {
        match self {
            Parsed::Conventional(commit) => commit.scope,
            Parsed::NoStyle(_) => None,
        }
    }
}

} // verus!
