//! The style policy: which rules run, and with what limits.
//!
//! Every field is optional. A field that is absent takes its built-in default
//! when it is read, and leaves the layer below untouched when one
//! configuration is laid over another.

use crate::text::same_text;
use crate::text::slice_texts;
use crate::text::texts;
use vstd::prelude::*;

verus! {

/// The grammar that a message is read with.
#[derive(Copy, Clone, Debug, PartialEq, Eq, Structural)]
pub enum Style {
    /// `type(scope)!: description`, then body and trailers.
    Conventional,
    /// A subject line, then free text.
    NoStyle,
}

impl Style {
    /// The name of the style as it is shown in a diagnostic.
    pub open spec fn name(self) -> Seq<char> {
        match self {
            Style::Conventional => "Conventional"@,
            Style::NoStyle => "None"@,
        }
    }

    /// The name of the style as a configuration file and a record spell it.
    pub open spec fn key(self) -> Seq<char> {
        match self {
            Style::Conventional => "conventional"@,
            Style::NoStyle => "none"@,
        }
    }

    /// The name of the style as a configuration file and a record spell it.
    pub fn as_key(self) -> (key: &'static str)
        ensures
            key@ == self.key(),
    {
        match self {
            Style::Conventional => "conventional",
            Style::NoStyle => "none",
        }
    }

    /// The style that a configuration file spells `key`, if there is one.
    pub fn from_key(key: &str) -> (style: Option<Self>)
        ensures
            style == if key@ == "conventional"@ || key@ == "Conventional"@ {
                Some(Style::Conventional)
            } else if key@ == "none"@ || key@ == "None"@ {
                Some(Style::NoStyle)
            } else {
                None
            },
    {
        if same_text(key, "conventional") || same_text(key, "Conventional") {
            Some(Style::Conventional)
        } else if same_text(key, "none") || same_text(key, "None") {
            Some(Style::NoStyle)
        } else {
            None
        }
    }

    /// The name of the style as it is shown in a diagnostic.
    pub fn as_str(self) -> (name: &'static str)
        ensures
            name@ == self.name(),
    {
        match self {
            Style::Conventional => "Conventional",
            Style::NoStyle => "None",
        }
    }
}

/// The commit types that are allowed where the configuration names none.
pub open spec fn default_types() -> Seq<Seq<char>> {
    seq!["fix"@, "feat"@, "chore"@, "docs"@, "style"@, "refactor"@, "perf"@, "test"@]
}

/// A style policy, each field of it optional.
#[derive(Clone, Debug, PartialEq, Eq)]
pub struct Config {
    pub ignore_author_re: Option<String>,
    pub subject_length: Option<usize>,
    pub subject_capitalized: Option<bool>,
    pub subject_not_punctuated: Option<bool>,
    pub imperative_subject: Option<bool>,
    pub no_fixup: Option<bool>,
    pub no_wip: Option<bool>,
    pub hard_line_length: Option<usize>,
    pub line_length: Option<usize>,
    pub style: Option<Style>,
    pub allowed_types: Option<Vec<String>>,
    pub merge_commit: Option<bool>,
}

impl Default for Config {
    /// The configuration that sets nothing.
    fn default() -> (config: Self)
        ensures
            config.is_unset(),
    {
        Config {
            ignore_author_re: None,
            subject_length: None,
            subject_capitalized: None,
            subject_not_punctuated: None,
            imperative_subject: None,
            no_fixup: None,
            no_wip: None,
            hard_line_length: None,
            line_length: None,
            style: None,
            allowed_types: None,
            merge_commit: None,
        }
    }
}

/// `over` where it is set, else `under`.
pub open spec fn overlay<T>(under: Option<T>, over: Option<T>) -> Option<T> {
    if over is Some {
        over
    } else {
        under
    }
}

/// Replaces `under` by `over` where `over` is set.
fn lay<T>(under: &mut Option<T>, over: Option<T>)
    ensures
        *final(under) == overlay(*old(under), over),
{
    if let Some(value) = over {
        *under = Some(value);
    }
}

impl Config {
    /// Whether no field is set.
    pub open spec fn is_unset(&self) -> bool {
        &&& self.ignore_author_re is None
        &&& self.subject_length is None
        &&& self.subject_capitalized is None
        &&& self.subject_not_punctuated is None
        &&& self.imperative_subject is None
        &&& self.no_fixup is None
        &&& self.no_wip is None
        &&& self.hard_line_length is None
        &&& self.line_length is None
        &&& self.style is None
        &&& self.allowed_types is None
        &&& self.merge_commit is None
    }

    /// Whether `self` and `other` are read alike by every getter.
    pub open spec fn reads_as(&self, other: &Config) -> bool {
        &&& self.spec_ignore_author_re() == other.spec_ignore_author_re()
        &&& self.spec_subject_length() == other.spec_subject_length()
        &&& self.spec_subject_capitalized() == other.spec_subject_capitalized()
        &&& self.spec_subject_not_punctuated() == other.spec_subject_not_punctuated()
        &&& self.spec_imperative_subject() == other.spec_imperative_subject()
        &&& self.spec_no_fixup() == other.spec_no_fixup()
        &&& self.spec_no_wip() == other.spec_no_wip()
        &&& self.spec_hard_line_length() == other.spec_hard_line_length()
        &&& self.spec_line_length() == other.spec_line_length()
        &&& self.spec_style() == other.spec_style()
        &&& self.spec_allowed_types() == other.spec_allowed_types()
        &&& self.spec_merge_commit() == other.spec_merge_commit()
    }

    pub open spec fn spec_ignore_author_re(&self) -> Option<Seq<char>> {
        match self.ignore_author_re {
            Some(pattern) => Some(pattern@),
            None => None,
        }
    }

    pub open spec fn spec_subject_length(&self) -> usize {
        match self.subject_length {
            Some(n) => n,
            None => 50,
        }
    }

    pub open spec fn spec_subject_capitalized(&self) -> bool {
        match self.subject_capitalized {
            Some(b) => b,
            None => true,
        }
    }

    pub open spec fn spec_subject_not_punctuated(&self) -> bool {
        match self.subject_not_punctuated {
            Some(b) => b,
            None => true,
        }
    }

    pub open spec fn spec_imperative_subject(&self) -> bool {
        match self.imperative_subject {
            Some(b) => b,
            None => true,
        }
    }

    pub open spec fn spec_no_fixup(&self) -> bool {
        match self.no_fixup {
            Some(b) => b,
            None => true,
        }
    }

    pub open spec fn spec_no_wip(&self) -> bool {
        match self.no_wip {
            Some(b) => b,
            None => true,
        }
    }

    pub open spec fn spec_line_length(&self) -> usize {
        match self.line_length {
            Some(n) => n,
            None => 72,
        }
    }

    pub open spec fn spec_hard_line_length(&self) -> usize {
        match self.hard_line_length {
            Some(n) => n,
            None => 0,
        }
    }

    pub open spec fn spec_style(&self) -> Style {
        match self.style {
            Some(style) => style,
            None => Style::NoStyle,
        }
    }

    pub open spec fn spec_allowed_types(&self) -> Seq<Seq<char>> {
        match self.allowed_types {
            Some(list) => texts(list@),
            None => default_types(),
        }
    }

    pub open spec fn spec_merge_commit(&self) -> bool {
        match self.merge_commit {
            Some(b) => b,
            None => true,
        }
    }

    /// The configuration in which every field that has a default is set to it.
    pub fn from_defaults() -> (config: Self)
        ensures
            config.ignore_author_re is None,
            config.subject_length == Some(50usize),
            config.subject_capitalized == Some(true),
            config.subject_not_punctuated == Some(true),
            config.imperative_subject == Some(true),
            config.no_fixup == Some(true),
            config.no_wip == Some(true),
            config.hard_line_length == Some(0usize),
            config.line_length == Some(72usize),
            config.style == Some(Style::NoStyle),
            config.allowed_types is Some,
            config.spec_allowed_types() == default_types(),
            config.merge_commit == Some(true),
    {
        let empty = Config::default();
        let mut allowed: Vec<String> = Vec::new();
        let names = empty.allowed_types();
        let mut i: usize = 0;
        while i < names.len()
            invariant
                i <= names.len(),
                allowed.len() == i,
                forall|j: int| 0 <= j < i ==> (#[trigger] allowed[j])@ == names[j]@,
            decreases names.len() - i,
        {
            allowed.push(names[i].to_owned());
            i = i + 1;
        }
        proof {
            assert(texts(allowed@) =~= slice_texts(names@));
        }
        Config {
            ignore_author_re: None,
            subject_length: Some(empty.subject_length()),
            subject_capitalized: Some(empty.subject_capitalized()),
            subject_not_punctuated: Some(empty.subject_not_punctuated()),
            imperative_subject: Some(empty.imperative_subject()),
            no_fixup: Some(empty.no_fixup()),
            no_wip: Some(empty.no_wip()),
            hard_line_length: Some(empty.hard_line_length()),
            line_length: Some(empty.line_length()),
            style: Some(empty.style()),
            allowed_types: Some(allowed),
            merge_commit: Some(empty.merge_commit()),
        }
    }

    /// The configuration that the command line's flags set: whether merge
    /// commits are allowed, and for work in progress and fixups the
    /// opposite of what the flags allow. A flag that was not given sets
    /// nothing.
    pub fn from_args(merge_commit: Option<bool>, wip: Option<bool>, fixup: Option<bool>) -> (config:
        Self)
        ensures
            config.merge_commit == merge_commit,
            config.no_wip == match wip {
                Some(allowed) => Some(!allowed),
                None => None,
            },
            config.no_fixup == match fixup {
                Some(allowed) => Some(!allowed),
                None => None,
            },
            config.ignore_author_re is None,
            config.subject_length is None,
            config.subject_capitalized is None,
            config.subject_not_punctuated is None,
            config.imperative_subject is None,
            config.hard_line_length is None,
            config.line_length is None,
            config.style is None,
            config.allowed_types is None,
    {
        let mut config = Config::default();
        config.merge_commit = merge_commit;
        config.no_wip = match wip {
            Some(allowed) => Some(!allowed),
            None => None,
        };
        config.no_fixup = match fixup {
            Some(allowed) => Some(!allowed),
            None => None,
        };
        config
    }

    /// Lays `source` over `self`: a field that `source` sets replaces the
    /// field of `self`, and every other field of `self` stays as it was.
    pub fn update(&mut self, source: Self)
        ensures
            final(self).ignore_author_re == overlay(old(self).ignore_author_re, source.ignore_author_re),
            final(self).subject_length == overlay(old(self).subject_length, source.subject_length),
            final(self).subject_capitalized == overlay(
                old(self).subject_capitalized,
                source.subject_capitalized,
            ),
            final(self).subject_not_punctuated == overlay(
                old(self).subject_not_punctuated,
                source.subject_not_punctuated,
            ),
            final(self).imperative_subject == overlay(
                old(self).imperative_subject,
                source.imperative_subject,
            ),
            final(self).no_fixup == overlay(old(self).no_fixup, source.no_fixup),
            final(self).no_wip == overlay(old(self).no_wip, source.no_wip),
            final(self).hard_line_length == overlay(
                old(self).hard_line_length,
                source.hard_line_length,
            ),
            final(self).line_length == overlay(old(self).line_length, source.line_length),
            final(self).style == overlay(old(self).style, source.style),
            final(self).allowed_types == overlay(old(self).allowed_types, source.allowed_types),
            final(self).merge_commit == overlay(old(self).merge_commit, source.merge_commit),
    {
        lay(&mut self.ignore_author_re, source.ignore_author_re);
        lay(&mut self.subject_length, source.subject_length);
        lay(&mut self.subject_capitalized, source.subject_capitalized);
        lay(&mut self.subject_not_punctuated, source.subject_not_punctuated);
        lay(&mut self.imperative_subject, source.imperative_subject);
        lay(&mut self.no_fixup, source.no_fixup);
        lay(&mut self.no_wip, source.no_wip);
        lay(&mut self.hard_line_length, source.hard_line_length);
        lay(&mut self.line_length, source.line_length);
        lay(&mut self.style, source.style);
        lay(&mut self.allowed_types, source.allowed_types);
        lay(&mut self.merge_commit, source.merge_commit);
    }

    /// The pattern of the authors whose commits are not checked, if one is set.
    pub fn ignore_author_re(&self) -> (pattern: Option<&str>)
        ensures
            match pattern {
                Some(p) => Some(p@),
                None => None,
            } == self.spec_ignore_author_re(),
    {
        match &self.ignore_author_re {
            Some(pattern) => Some(pattern.as_str()),
            None => None,
        }
    }

    /// The limit on the subject's length; 50 by default, 0 for none.
    #[verifier::when_used_as_spec(spec_subject_length)]
    pub fn subject_length(&self) -> (n: usize)
        ensures
            n == self.spec_subject_length(),
    {
        match self.subject_length {
            Some(n) => n,
            None => 50,
        }
    }

    /// Whether the subject must begin with a capital; it must by default.
    #[verifier::when_used_as_spec(spec_subject_capitalized)]
    pub fn subject_capitalized(&self) -> (b: bool)
        ensures
            b == self.spec_subject_capitalized(),
    {
        match self.subject_capitalized {
            Some(b) => b,
            None => true,
        }
    }

    /// Whether the subject must not end in punctuation; it must not by default.
    #[verifier::when_used_as_spec(spec_subject_not_punctuated)]
    pub fn subject_not_punctuated(&self) -> (b: bool)
        ensures
            b == self.spec_subject_not_punctuated(),
    {
        match self.subject_not_punctuated {
            Some(b) => b,
            None => true,
        }
    }

    /// Whether the subject must be in the imperative mood; it must by default.
    #[verifier::when_used_as_spec(spec_imperative_subject)]
    pub fn imperative_subject(&self) -> (b: bool)
        ensures
            b == self.spec_imperative_subject(),
    {
        match self.imperative_subject {
            Some(b) => b,
            None => true,
        }
    }

    /// Whether fixup commits are refused; they are by default.
    #[verifier::when_used_as_spec(spec_no_fixup)]
    pub fn no_fixup(&self) -> (b: bool)
        ensures
            b == self.spec_no_fixup(),
    {
        match self.no_fixup {
            Some(b) => b,
            None => true,
        }
    }

    /// Whether work-in-progress commits are refused; they are by default.
    #[verifier::when_used_as_spec(spec_no_wip)]
    pub fn no_wip(&self) -> (b: bool)
        ensures
            b == self.spec_no_wip(),
    {
        match self.no_wip {
            Some(b) => b,
            None => true,
        }
    }

    /// The soft limit on each line's length; 72 by default, 0 for none.
    #[verifier::when_used_as_spec(spec_line_length)]
    pub fn line_length(&self) -> (n: usize)
        ensures
            n == self.spec_line_length(),
    {
        match self.line_length {
            Some(n) => n,
            None => 72,
        }
    }

    /// The hard limit on each line's length; none (0) by default.
    #[verifier::when_used_as_spec(spec_hard_line_length)]
    pub fn hard_line_length(&self) -> (n: usize)
        ensures
            n == self.spec_hard_line_length(),
    {
        match self.hard_line_length {
            Some(n) => n,
            None => 0,
        }
    }

    /// The grammar that messages are read with; `Style::NoStyle` by default.
    #[verifier::when_used_as_spec(spec_style)]
    pub fn style(&self) -> (style: Style)
        ensures
            style == self.spec_style(),
    {
        match self.style {
            Some(style) => style,
            None => Style::NoStyle,
        }
    }

    /// The commit types that are allowed, in the order in which they were
    /// configured; the built-in list where none were.
    pub fn allowed_types(&self) -> (types: Vec<&str>)
        ensures
            slice_texts(types@) == self.spec_allowed_types(),
    {
        let mut types: Vec<&str> = Vec::new();
        match &self.allowed_types {
            Some(list) => {
                let mut i: usize = 0;
                while i < list.len()
                    invariant
                        i <= list.len(),
                        types.len() == i,
                        forall|j: int| 0 <= j < i ==> (#[trigger] types[j])@ == list[j]@,
                    decreases list.len() - i,
                {
                    types.push(list[i].as_str());
                    i = i + 1;
                }
                proof {
                    assert(slice_texts(types@) =~= texts(list@));
                }
            },
            None => {
                types.push("fix");
                types.push("feat");
                types.push("chore");
                types.push("docs");
                types.push("style");
                types.push("refactor");
                types.push("perf");
                types.push("test");
                proof {
                    assert(slice_texts(types@) =~= default_types());
                }
            },
        }
        types
    }

    /// Whether merge commits are allowed; they are by default.
    #[verifier::when_used_as_spec(spec_merge_commit)]
    pub fn merge_commit(&self) -> (b: bool)
        ensures
            b == self.spec_merge_commit(),
    {
        match self.merge_commit {
            Some(b) => b,
            None => true,
        }
    }
}

/// What a pair of opposite command-line flags sets: `Some(true)` for the
/// affirmative flag, `Some(false)` for the negative one, nothing for neither.
pub fn resolve_bool_arg(yes: bool, no: bool) -> (value: Option<bool>)
    requires
        !(yes && no),
    ensures
        value == if yes {
            Some(true)
        } else if no {
            Some(false)
        } else {
            None::<bool>
        },
{
    if yes {
        Some(true)
    } else if no {
        Some(false)
    } else {
        None
    }
}

} // verus!
