//! Diagnostics: what a rule reports when a message breaks it, and the line
//! of text that shows a diagnostic to a person.

use crate::config::Style;
use crate::text::texts;
use vstd::prelude::*;

verus! {

/// Where a checked message came from.
#[derive(Copy, Clone, Debug)]
pub enum Source<'s> {
    /// The full id of a commit, in hexadecimal.
    Oid(&'s str),
    /// The abbreviated id of a commit.
    ShortId(&'s str),
    /// The path of a file, or `-` for standard input.
    Path(&'s str),
}

/// The value of a [`Source`].
pub enum SourceView {
    Oid(Seq<char>),
    ShortId(Seq<char>),
    Path(Seq<char>),
}

impl SourceView {
    /// The text that shows the source in a report.
    pub open spec fn text(self) -> Seq<char> {
        match self {
            SourceView::Oid(id) => id,
            SourceView::ShortId(id) => id,
            SourceView::Path(path) => path,
        }
    }
}

impl View for Source<'_> {
    type V = SourceView;

    open spec fn view(&self) -> SourceView {
        match *self {
            Source::Oid(id) => SourceView::Oid(id@),
            Source::ShortId(id) => SourceView::ShortId(id@),
            Source::Path(path) => SourceView::Path(path@),
        }
    }
}

impl<'s> Source<'s> {
    /// The text that shows the source in a report.
    pub fn as_str(&self) -> (text: &'s str)
        ensures
            text@ == self@.text(),
    {
        match *self {
            Source::Oid(id) => id,
            Source::ShortId(id) => id,
            Source::Path(path) => path,
        }
    }
}

/// How grave a diagnostic is.
#[derive(Copy, Clone, Debug, PartialEq, Eq, Structural)]
pub enum Severity {
    Error,
}

impl Severity {
    /// The word that shows the severity in a report.
    pub open spec fn text(self) -> Seq<char> {
        match self {
            Severity::Error => "error"@,
        }
    }

    /// The word that shows the severity in a report.
    pub fn as_str(self) -> (text: &'static str)
        ensures
            text@ == self.text(),
    {
        match self {
            Severity::Error => "error",
        }
    }
}

/// The message is empty or blank.
#[derive(Clone, Debug)]
pub struct EmptyCommit {}

/// The subject is longer than the limit.
#[derive(Clone, Debug)]
pub struct SubjectTooLong {
    pub max_length: usize,
    pub actual_length: usize,
}

/// A line is longer than the limit.
#[derive(Clone, Debug)]
pub struct LineTooLong {
    pub max_length: usize,
    pub actual_length: usize,
}

/// The subject begins with a lower-case letter.
#[derive(Clone, Debug)]
pub struct CapitalizeSubject<'s> {
    pub first_word: &'s str,
}

/// The subject ends in punctuation.
#[derive(Clone, Debug)]
pub struct NoPunctuation {
    pub punctuation: char,
}

/// The subject does not begin with a verb in the imperative mood.
#[derive(Clone, Debug)]
pub struct Imperative<'s> {
    pub first_word: &'s str,
}

/// The message is marked as work in progress.
#[derive(Clone, Debug)]
pub struct Wip {}

/// The message is that of a fixup commit.
#[derive(Clone, Debug)]
pub struct Fixup {}

/// The message does not follow the grammar of the configured style.
#[derive(Clone, Debug)]
pub struct InvalidCommitFormat {
    /// What the parser said of the message.
    pub error: String,
    pub style: Style,
}

/// The commit's type is not among the allowed ones.
#[derive(Clone, Debug)]
pub struct DisallowedCommitType {
    pub used: String,
    pub allowed: Vec<String>,
}

/// The commit has more than one parent.
#[derive(Clone, Debug)]
pub struct MergeCommitDisallowed {}

/// What a diagnostic says.
#[derive(Clone, Debug)]
pub enum Content<'s> {
    EmptyCommit(EmptyCommit),
    SubjectTooLong(SubjectTooLong),
    LineTooLong(LineTooLong),
    CapitalizeSubject(CapitalizeSubject<'s>),
    NoPunctuation(NoPunctuation),
    Imperative(Imperative<'s>),
    Wip(Wip),
    Fixup(Fixup),
    InvalidCommitFormat(InvalidCommitFormat),
    DisallowedCommitType(DisallowedCommitType),
    MergeCommitDisallowed(MergeCommitDisallowed),
}

/// The value of a [`Content`].
pub enum ContentView {
    EmptyCommit,
    SubjectTooLong { max_length: usize, actual_length: usize },
    LineTooLong { max_length: usize, actual_length: usize },
    CapitalizeSubject { first_word: Seq<char> },
    NoPunctuation { punctuation: char },
    Imperative { first_word: Seq<char> },
    Wip,
    Fixup,
    InvalidCommitFormat { error: Seq<char>, style: Style },
    DisallowedCommitType { used: Seq<char>, allowed: Seq<Seq<char>> },
    MergeCommitDisallowed,
}

impl View for Content<'_> {
    type V = ContentView;

    open spec fn view(&self) -> ContentView {
        match *self {
            Content::EmptyCommit(_) => ContentView::EmptyCommit,
            Content::SubjectTooLong(c) => ContentView::SubjectTooLong {
                max_length: c.max_length,
                actual_length: c.actual_length,
            },
            Content::LineTooLong(c) => ContentView::LineTooLong {
                max_length: c.max_length,
                actual_length: c.actual_length,
            },
            Content::CapitalizeSubject(c) => ContentView::CapitalizeSubject {
                first_word: c.first_word@,
            },
            Content::NoPunctuation(c) => ContentView::NoPunctuation { punctuation: c.punctuation },
            Content::Imperative(c) => ContentView::Imperative { first_word: c.first_word@ },
            Content::Wip(_) => ContentView::Wip,
            Content::Fixup(_) => ContentView::Fixup,
            Content::InvalidCommitFormat(c) => ContentView::InvalidCommitFormat {
                error: c.error@,
                style: c.style,
            },
            Content::DisallowedCommitType(c) => ContentView::DisallowedCommitType {
                used: c.used@,
                allowed: texts(c.allowed@),
            },
            Content::MergeCommitDisallowed(_) => ContentView::MergeCommitDisallowed,
        }
    }
}

/// The decimal digit of a number below ten.
pub open spec fn digit(d: nat) -> char {
    if d == 0 {
        '0'
    } else if d == 1 {
        '1'
    } else if d == 2 {
        '2'
    } else if d == 3 {
        '3'
    } else if d == 4 {
        '4'
    } else if d == 5 {
        '5'
    } else if d == 6 {
        '6'
    } else if d == 7 {
        '7'
    } else if d == 8 {
        '8'
    } else {
        '9'
    }
}

/// A number written in decimal, without leading zeros.
pub open spec fn decimal(n: nat) -> Seq<char>
    decreases n,
{
    if n < 10 {
        seq![digit(n)]
    } else {
        decimal(n / 10).push(digit(n % 10))
    }
}

/// A list of texts as a person reads it in a diagnostic: what
/// `format!("{:?}", list)` gives for a vector of strings.
pub uninterp spec fn debug_text(list: Seq<Seq<char>>) -> Seq<char>;

/// `text` as a JSON string: between double quotes, with the characters
/// escaped that JSON does not take as they are.
pub uninterp spec fn json_text(text: Seq<char>) -> Seq<char>;

/// The JSON strings of `list`, with a comma between each two.
pub open spec fn json_items(list: Seq<Seq<char>>) -> Seq<char>
    decreases list.len(),
{
    if list.len() == 0 {
        Seq::empty()
    } else if list.len() == 1 {
        json_text(list[0])
    } else {
        json_items(list.drop_last()).push(',') + json_text(list.last())
    }
}

impl ContentView {
    /// The record of what is wrong: a JSON object that names the kind of
    /// diagnostic under `type` and holds what the kind carries beside it.
    pub open spec fn json(self) -> Seq<char> {
        match self {
            ContentView::EmptyCommit => "{\"type\":\"empty_commit\"}"@,
            ContentView::SubjectTooLong { max_length, actual_length } => {
                "{\"type\":\"subject_too_long\",\"max_length\":"@ + decimal(max_length as nat)
                    + ",\"actual_length\":"@ + decimal(actual_length as nat) + "}"@
            },
            ContentView::LineTooLong { max_length, actual_length } => {
                "{\"type\":\"line_too_long\",\"max_length\":"@ + decimal(max_length as nat)
                    + ",\"actual_length\":"@ + decimal(actual_length as nat) + "}"@
            },
            ContentView::CapitalizeSubject { first_word } => {
                "{\"type\":\"capitalize_subject\",\"first_word\":"@ + json_text(first_word) + "}"@
            },
            ContentView::NoPunctuation { punctuation } => {
                "{\"type\":\"no_punctuation\",\"punctuation\":"@ + json_text(seq![punctuation])
                    + "}"@
            },
            ContentView::Imperative { first_word } => {
                "{\"type\":\"imperative\",\"first_word\":"@ + json_text(first_word) + "}"@
            },
            ContentView::Wip => "{\"type\":\"wip\"}"@,
            ContentView::Fixup => "{\"type\":\"fixup\"}"@,
            ContentView::InvalidCommitFormat { error, style } => {
                "{\"type\":\"invalid_commit_format\",\"error\":"@ + json_text(error)
                    + ",\"style\":"@ + json_text(style.key()) + "}"@
            },
            ContentView::DisallowedCommitType { used, allowed } => {
                "{\"type\":\"disallowed_commit_type\",\"used\":"@ + json_text(used)
                    + ",\"allowed\":["@ + json_items(allowed) + "]}"@
            },
            ContentView::MergeCommitDisallowed => "{\"type\":\"merge_commit_disallowed\"}"@,
        }
    }

    /// The sentence that tells a person what is wrong.
    pub open spec fn text(self) -> Seq<char> {
        match self {
            ContentView::EmptyCommit => "Empty commits are disallowed"@,
            ContentView::SubjectTooLong { max_length, actual_length } => {
                "Commit subject is too long, "@ + decimal(actual_length as nat)
                    + " exceeds the max length of "@ + decimal(max_length as nat)
            },
            ContentView::LineTooLong { max_length, actual_length } => {
                "Line is too long, "@ + decimal(actual_length as nat)
                    + " exceeds the max length of "@ + decimal(max_length as nat)
            },
            ContentView::CapitalizeSubject { first_word } => {
                "Subject should be capitalized but found `"@ + first_word + "`"@
            },
            ContentView::NoPunctuation { punctuation } => {
                ("Subject should not be punctuated but found `"@).push(punctuation) + "`"@
            },
            ContentView::Imperative { first_word } => {
                "Subject should be in the imperative mood but found `"@ + first_word + "`"@
            },
            ContentView::Wip => "Work-in-progress commits must be cleaned up"@,
            ContentView::Fixup => "Fixup commits must be squashed"@,
            ContentView::InvalidCommitFormat { error, style } => {
                "Commit is not in "@ + style.name() + " format: "@ + error
            },
            ContentView::DisallowedCommitType { used, allowed } => {
                "Disallowed type `"@ + used + "` used, please use one of "@ + debug_text(allowed)
            },
            ContentView::MergeCommitDisallowed => "Merge commits are disallowed"@,
        }
    }
}

/// `String::push` appends one character to the end of the string.
pub assume_specification[ String::push ](s: &mut String, c: char)
    ensures
        final(s)@ == old(s)@.push(c),
;

/// Formats a vector of strings with `{:?}`: the result is a function of the
/// texts alone, and `debug_text` is its name.
#[verifier::external_body]
fn debug_list(list: &Vec<String>) -> (text: String)
    ensures
        text@ == debug_text(texts(list@)),
{
    format!("{:?}", list)
}

/// Writes `text` as a JSON string: `serde_json` shows a string value in
/// compact form, between double quotes and escaped. The result depends on
/// the text alone, and `json_text` is its name.
#[verifier::external_body]
fn json_string(text: &str) -> (json: String)
    ensures
        json@ == json_text(text@),
{
    serde_json::Value::from(text).to_string()
}

/// Appends the JSON strings of `list` to `out`, with a comma between each
/// two.
fn push_json_items(out: &mut String, list: &Vec<String>)
    ensures
        final(out)@ == old(out)@ + json_items(texts(list@)),
{
    let ghost before = out@;
    let ghost all = texts(list@);
    let mut i: usize = 0;
    proof {
        assert(all.take(0) =~= Seq::<Seq<char>>::empty());
        assert(before + json_items(all.take(0)) =~= before);
    }
    while i < list.len()
        invariant
            i <= list.len(),
            all == texts(list@),
            out@ == before + json_items(all.take(i as int)),
        decreases list.len() - i,
    {
        if i > 0 {
            out.push(',');
        }
        let item = json_string(list[i].as_str());
        out.append(item.as_str());
        proof {
            let next = all.take(i + 1);
            assert(next.drop_last() =~= all.take(i as int));
            assert(next.last() == list[i as int]@);
            if i == 0 {
                assert(json_items(all.take(0)) =~= Seq::<char>::empty());
                assert(out@ =~= before + json_items(next));
            } else {
                assert(out@ =~= before + json_items(next));
            }
        }
        i = i + 1;
    }
    proof {
        assert(all.take(list.len() as int) =~= all);
    }
}

fn digit_char(d: usize) -> (c: char)
    requires
        d < 10,
    ensures
        c == digit(d as nat),
{
    if d == 0 {
        '0'
    } else if d == 1 {
        '1'
    } else if d == 2 {
        '2'
    } else if d == 3 {
        '3'
    } else if d == 4 {
        '4'
    } else if d == 5 {
        '5'
    } else if d == 6 {
        '6'
    } else if d == 7 {
        '7'
    } else if d == 8 {
        '8'
    } else {
        '9'
    }
}

/// Appends `n`, written in decimal, to `out`.
pub fn push_decimal(out: &mut String, n: usize)
    ensures
        final(out)@ == old(out)@ + decimal(n as nat),
    decreases n,
{
    if n >= 10 {
        push_decimal(out, n / 10);
    }
    out.push(digit_char(n % 10));
}

impl<'s> Content<'s> {
    /// The record of what is wrong, as a JSON object.
    pub fn to_json(&self) -> (json: String)
        ensures
            json@ == self@.json(),
    {
        match self {
            Content::EmptyCommit(_) => String::from_str("{\"type\":\"empty_commit\"}"),
            Content::SubjectTooLong(c) => {
                let mut json = String::from_str("{\"type\":\"subject_too_long\",\"max_length\":");
                push_decimal(&mut json, c.max_length);
                json.append(",\"actual_length\":");
                push_decimal(&mut json, c.actual_length);
                json.append("}");
                json
            },
            Content::LineTooLong(c) => {
                let mut json = String::from_str("{\"type\":\"line_too_long\",\"max_length\":");
                push_decimal(&mut json, c.max_length);
                json.append(",\"actual_length\":");
                push_decimal(&mut json, c.actual_length);
                json.append("}");
                json
            },
            Content::CapitalizeSubject(c) => {
                let mut json = String::from_str("{\"type\":\"capitalize_subject\",\"first_word\":");
                let word = json_string(c.first_word);
                json.append(word.as_str());
                json.append("}");
                json
            },
            Content::NoPunctuation(c) => {
                let mut json = String::from_str("{\"type\":\"no_punctuation\",\"punctuation\":");
                let mut mark = String::new();
                mark.push(c.punctuation);
                proof {
                    assert(mark@ =~= seq![c.punctuation]);
                }
                let mark = json_string(mark.as_str());
                json.append(mark.as_str());
                json.append("}");
                json
            },
            Content::Imperative(c) => {
                let mut json = String::from_str("{\"type\":\"imperative\",\"first_word\":");
                let word = json_string(c.first_word);
                json.append(word.as_str());
                json.append("}");
                json
            },
            Content::Wip(_) => String::from_str("{\"type\":\"wip\"}"),
            Content::Fixup(_) => String::from_str("{\"type\":\"fixup\"}"),
            Content::InvalidCommitFormat(c) => {
                let mut json = String::from_str("{\"type\":\"invalid_commit_format\",\"error\":");
                let error = json_string(c.error.as_str());
                json.append(error.as_str());
                json.append(",\"style\":");
                let style = json_string(c.style.as_key());
                json.append(style.as_str());
                json.append("}");
                json
            },
            Content::DisallowedCommitType(c) => {
                let mut json = String::from_str("{\"type\":\"disallowed_commit_type\",\"used\":");
                let used = json_string(c.used.as_str());
                json.append(used.as_str());
                json.append(",\"allowed\":[");
                push_json_items(&mut json, &c.allowed);
                json.append("]}");
                json
            },
            Content::MergeCommitDisallowed(_) => String::from_str(
                "{\"type\":\"merge_commit_disallowed\"}",
            ),
        }
    }

    /// The sentence that tells a person what is wrong.
    pub fn to_string(&self) -> (text: String)
        ensures
            text@ == self@.text(),
    {
        match self {
            Content::EmptyCommit(_) => String::from_str("Empty commits are disallowed"),
            Content::SubjectTooLong(c) => {
                let mut text = String::from_str("Commit subject is too long, ");
                push_decimal(&mut text, c.actual_length);
                text.append(" exceeds the max length of ");
                push_decimal(&mut text, c.max_length);
                text
            },
            Content::LineTooLong(c) => {
                let mut text = String::from_str("Line is too long, ");
                push_decimal(&mut text, c.actual_length);
                text.append(" exceeds the max length of ");
                push_decimal(&mut text, c.max_length);
                text
            },
            Content::CapitalizeSubject(c) => {
                let mut text = String::from_str("Subject should be capitalized but found `");
                text.append(c.first_word);
                text.append("`");
                text
            },
            Content::NoPunctuation(c) => {
                let mut text = String::from_str("Subject should not be punctuated but found `");
                text.push(c.punctuation);
                text.append("`");
                text
            },
            Content::Imperative(c) => {
                let mut text = String::from_str(
                    "Subject should be in the imperative mood but found `",
                );
                text.append(c.first_word);
                text.append("`");
                text
            },
            Content::Wip(_) => String::from_str("Work-in-progress commits must be cleaned up"),
            Content::Fixup(_) => String::from_str("Fixup commits must be squashed"),
            Content::InvalidCommitFormat(c) => {
                let mut text = String::from_str("Commit is not in ");
                text.append(c.style.as_str());
                text.append(" format: ");
                text.append(c.error.as_str());
                text
            },
            Content::DisallowedCommitType(c) => {
                let mut text = String::from_str("Disallowed type `");
                text.append(c.used.as_str());
                text.append("` used, please use one of ");
                let list = debug_list(&c.allowed);
                text.append(list.as_str());
                text
            },
            Content::MergeCommitDisallowed(_) => String::from_str("Merge commits are disallowed"),
        }
    }
}

/// A diagnostic: what is wrong, how grave it is, and in which message.
#[derive(Clone, Debug)]
pub struct Message<'s> {
    pub source: Source<'s>,
    pub severity: Severity,
    pub content: Content<'s>,
}

/// The value of a [`Message`].
pub struct MessageView {
    pub source: SourceView,
    pub severity: Severity,
    pub content: ContentView,
}

impl MessageView {
    /// The diagnostic of severity error on `source` that says `content`.
    pub open spec fn error(source: SourceView, content: ContentView) -> MessageView {
        MessageView { source, severity: Severity::Error, content }
    }

    /// The record of the diagnostic: a JSON object of source, severity and
    /// content, on one line.
    pub open spec fn json(self) -> Seq<char> {
        "{\"source\":"@ + json_text(self.source.text()) + ",\"severity\":"@ + json_text(
            self.severity.text(),
        ) + ",\"content\":"@ + self.content.json() + "}"@
    }

    /// The line that shows the diagnostic: source, severity and sentence.
    pub open spec fn brief(self) -> Seq<char> {
        self.source.text() + ": "@ + self.severity.text() + " "@ + self.content.text()
    }
}

impl View for Message<'_> {
    type V = MessageView;

    open spec fn view(&self) -> MessageView {
        MessageView { source: self.source@, severity: self.severity, content: self.content@ }
    }
}

impl<'s> Message<'s> {
    /// The diagnostic of severity error on `source` that says `content`.
    pub fn error(source: Source<'s>, content: Content<'s>) -> (message: Self)
        ensures
            message@ == MessageView::error(source@, content@),
    {
        Message { source, severity: Severity::Error, content }
    }

    /// The record of the diagnostic: a JSON object of source, severity and
    /// content, on one line.
    pub fn to_json(&self) -> (json: String)
        ensures
            json@ == self@.json(),
    {
        let mut json = String::from_str("{\"source\":");
        let source = json_string(self.source.as_str());
        json.append(source.as_str());
        json.append(",\"severity\":");
        let severity = json_string(self.severity.as_str());
        json.append(severity.as_str());
        json.append(",\"content\":");
        let content = self.content.to_json();
        json.append(content.as_str());
        json.append("}");
        json
    }

    /// The line that shows the diagnostic: source, severity and sentence.
    pub fn brief(&self) -> (line: String)
        ensures
            line@ == self@.brief(),
    {
        let mut line = String::from_str(self.source.as_str());
        line.append(": ");
        line.append(self.severity.as_str());
        line.append(" ");
        let sentence = self.content.to_string();
        line.append(sentence.as_str());
        line
    }
}

/// The values of a list of diagnostics, in order.
pub open spec fn views(report: Seq<Message<'_>>) -> Seq<MessageView> {
    Seq::new(report.len(), |i: int| report[i]@)
}

/// Whether the list `after` is the list `before` with diagnostics of the
/// values `added` behind it, in that order.
pub open spec fn reported(
    before: Seq<Message<'_>>,
    after: Seq<Message<'_>>,
    added: Seq<MessageView>,
) -> bool {
    views(after) =~= views(before) + added
}

/// Adding a diagnostic to a list adds its value to the list's values.
pub proof fn lemma_views_push(report: Seq<Message<'_>>, message: Message<'_>)
    ensures
        views(report.push(message)) == views(report).push(message@),
{
    assert(views(report.push(message)) =~= views(report).push(message@));
}

/// Adds to `report` the diagnostic of severity error on `source` that says
/// `content`.
pub fn push_error<'s>(report: &mut Vec<Message<'s>>, source: Source<'s>, content: Content<'s>)
    ensures
        reported(old(report)@, final(report)@, seq![MessageView::error(source@, content@)]),
{
    let message = Message::error(source, content);
    proof {
        lemma_views_push(report@, message);
    }
    report.push(message);
}

} // verus!
