//! The grammar without structure: a subject line, then free text.

use crate::style::Style;
use crate::text::chars_of;
use crate::text::find_at;
use crate::text::index_of;
use crate::text::lemma_index_of;
use crate::text::opt_text;
use crate::text::trim;
use crate::text::trim_end_at;
use crate::text::trim_start_at;
use vstd::prelude::*;

verus! {

/// A message read without structure.
#[derive(Clone, Debug, PartialEq, Eq)]
pub struct Commit<'c> {
    /// The first line, as it stands.
    pub raw_subject: &'c str,
    /// What follows the first line, without the white space around it; absent
    /// where nothing but white space follows.
    pub body: Option<&'c str>,
}

/// The value of a [`Commit`].
pub struct CommitView {
    pub raw_subject: Seq<char>,
    pub body: Option<Seq<char>>,
}

impl View for Commit<'_> {
    type V = CommitView;

    open spec fn view(&self) -> CommitView {
        CommitView { raw_subject: self.raw_subject@, body: opt_text(self.body) }
    }
}

/// Where the subject of `commit` ends: at its first line feed, or at the
/// carriage return just before that line feed; at the end where it has no
/// line feed.
pub open spec fn subject_len(commit: Seq<char>) -> nat {
    let feed = index_of(commit, '\n');
    if 0 < feed < commit.len() && commit[feed - 1] == '\r' {
        (feed - 1) as nat
    } else {
        feed
    }
}

/// The first line of `commit`, without its line break.
pub open spec fn subject_of(commit: Seq<char>) -> Seq<char> {
    commit.take(subject_len(commit) as int)
}

/// What follows the first line break of `commit`, trimmed; nothing where
/// that is empty or `commit` is a single line.
pub open spec fn body_of(commit: Seq<char>) -> Option<Seq<char>> {
    let feed = index_of(commit, '\n') as int;
    if feed < commit.len() && trim(commit.skip(feed + 1)).len() > 0 {
        Some(trim(commit.skip(feed + 1)))
    } else {
        None
    }
}

/// The subject is a single line: it holds no line feed.
pub proof fn lemma_subject_single_line(commit: Seq<char>)
    ensures
        !subject_of(commit).contains('\n'),
{
    lemma_index_of(commit, '\n');
    let subject = subject_of(commit);
    if subject.contains('\n') {
        let i = choose|i: int| 0 <= i < subject.len() && subject[i] == '\n';
        assert(commit[i] == '\n');
    }
}

/// The subject and the body of `commit`.
pub fn split_parts(commit: &str) -> (parts: (&str, Option<&str>))
    ensures
        parts.0@ == subject_of(commit@),
        opt_text(parts.1) == body_of(commit@),
{
    let text = chars_of(commit);
    let len = text.len();
    let feed = find_at(&text, 0, len, '\n');
    proof {
        assert(text@.subrange(0, len as int) =~= commit@);
        lemma_index_of(commit@, '\n');
    }
    if feed == len {
        return (commit.substring_char(0, len), None);
    }
    let subject_end = if feed > 0 && text[feed - 1] == '\r' {
        feed - 1
    } else {
        feed
    };
    let raw_subject = commit.substring_char(0, subject_end);
    let end = trim_end_at(&text, feed + 1, len);
    let start = trim_start_at(&text, feed + 1, end);
    proof {
        let rest = commit@.skip(feed + 1);
        assert(text@.subrange(feed + 1, len as int) =~= rest);
        assert(text@.subrange(feed + 1, end as int) =~= rest.take(end - (feed + 1)));
        assert(trim(rest) =~= commit@.subrange(start as int, end as int));
    }
    if start == end {
        (raw_subject, None)
    } else {
        (raw_subject, Some(commit.substring_char(start, end)))
    }
}

impl<'c> Commit<'c> {
    /// Reads `commit` without structure. Every text can be read so.
    pub fn parse(commit: &'c str) -> (parsed: Result<Self, String>)
        ensures
            parsed is Ok,
            parsed.unwrap()@.raw_subject == subject_of(commit@),
            parsed.unwrap()@.body == body_of(commit@),
    {
        let (raw_subject, body) = split_parts(commit);
        Ok(Commit { raw_subject, body })
    }
}

impl<'c> Style for Commit<'c> {
    open spec fn subject_text(&self) -> Seq<char> {
        self.raw_subject@
    }

    open spec fn body_text(&self) -> Option<Seq<char>> {
        opt_text(self.body)
    }

    open spec fn type_text(&self) -> Option<Seq<char>> {
        None
    }

    open spec fn scope_text(&self) -> Option<Seq<char>> {
        None
    }

    fn subject(&self) -> (subject: &str) {
        self.raw_subject
    }

    fn body(&self) -> (body: Option<&str>) {
        self.body
    }

    fn type_(&self) -> (type_: Option<&str>) {
        None
    }

    fn scope(&self) -> (scope: Option<&str>) {
        None
    }
}

} // verus!
