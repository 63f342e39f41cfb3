//! The rules, and the order in which a message is held against them.
//!
//! Each rule adds a diagnostic to the report for every violation it finds
//! and tells whether it found one. What a rule reports is given by the
//! spec function that is named after the rule, with `_report` at the end.

use crate::author::author_ignored;
use crate::author::ignores_author;
use crate::config::Config;
use crate::mood::imperative_mood;
use crate::mood::is_imperative;
use crate::report::CapitalizeSubject;
use crate::report::Content;
use crate::report::ContentView;
use crate::report::DisallowedCommitType;
use crate::report::EmptyCommit;
use crate::report::Fixup;
use crate::report::Imperative;
use crate::report::InvalidCommitFormat;
use crate::report::LineTooLong;
use crate::report::MergeCommitDisallowed;
use crate::report::Message;
use crate::report::MessageView;
use crate::report::NoPunctuation;
use crate::report::Source;
use crate::report::SourceView;
use crate::report::SubjectTooLong;
use crate::report::Wip;
use crate::report::push_error;
use crate::report::reported;
use crate::report::views;
use crate::style::Parsed;
use crate::style::Parts;
use crate::style::outcome;
use crate::style::parse_outcome;
use crate::text::before_last_space;
use crate::text::blank;
use crate::text::chars_of;
use crate::text::find_at;
use crate::text::first_line;
use crate::text::first_word;
use crate::text::index_of;
use crate::text::lemma_blank_trim;
use crate::text::lemma_last_index_of;
use crate::text::opt_text;
use crate::text::rfind_at;
use crate::text::slice_texts;
use crate::text::texts;
use crate::text::trim_end;
use crate::text::trim_end_at;
use crate::text::trim_start_at;
use crate::text::whitespace;
use crate::text::word_end_at;
use crate::unicode::caseless_eq;
use crate::unicode::count_graphemes;
use crate::unicode::eq_caseless;
use crate::unicode::grapheme_count;
use crate::unicode::is_lower;
use crate::unicode::is_word_char;
use crate::unicode::lowercase;
use crate::unicode::word_char;
use vstd::prelude::*;

verus! {

/// The report of one diagnostic of severity error.
pub open spec fn one(source: SourceView, content: ContentView) -> Seq<MessageView> {
    seq![MessageView::error(source, content)]
}

/// The report without diagnostics.
pub open spec fn none() -> Seq<MessageView> {
    Seq::empty()
}

/// Whether `text` begins with `word` and the word ends there: the text
/// ends, or goes on with a character that is not a word character.
pub open spec fn begins_with_word(text: Seq<char>, word: Seq<char>) -> bool {
    &&& word.is_prefix_of(text)
    &&& (text.len() == word.len() || !word_char(text[word.len() as int]))
}

/// Whether `message` begins with a mark of work in progress: one of the
/// words `wip`, `WIP` and `Draft`, or one of `[WIP]`, `[Draft]` and `(Draft)`.
pub open spec fn wip_marker(message: Seq<char>) -> bool {
    ||| begins_with_word(message, "wip"@)
    ||| begins_with_word(message, "WIP"@)
    ||| "[WIP]"@.is_prefix_of(message)
    ||| begins_with_word(message, "Draft"@)
    ||| "[Draft]"@.is_prefix_of(message)
    ||| "(Draft)"@.is_prefix_of(message)
}

/// Whether `message` begins with the mark of a fixup commit.
pub open spec fn fixup_marker(message: Seq<char>) -> bool {
    "fixup! "@.is_prefix_of(message)
}

/// Whether `c` may not end a subject.
pub open spec fn punctuation(c: char) -> bool {
    c == ' ' || c == '.' || c == '!' || c == '?'
}

/// What the empty-message rule reports of `message`.
pub open spec fn has_message_report(source: SourceView, message: Seq<char>) -> Seq<MessageView> {
    if blank(message) {
        one(source, ContentView::EmptyCommit)
    } else {
        none()
    }
}

/// What the work-in-progress rule reports of `message`.
pub open spec fn wip_report(source: SourceView, message: Seq<char>) -> Seq<MessageView> {
    if wip_marker(message) {
        one(source, ContentView::Wip)
    } else {
        none()
    }
}

/// What the fixup rule reports of `message`.
pub open spec fn fixup_report(source: SourceView, message: Seq<char>) -> Seq<MessageView> {
    if fixup_marker(message) {
        one(source, ContentView::Fixup)
    } else {
        none()
    }
}

/// What the capitalization rule reports of `subject`.
pub open spec fn capitalized_subject_report(source: SourceView, subject: Seq<char>) -> Seq<
    MessageView,
> {
    let word = first_word(subject);
    if word.len() > 0 && lowercase(word[0]) {
        one(source, ContentView::CapitalizeSubject { first_word: word })
    } else {
        none()
    }
}

/// What the punctuation rule reports of `subject`.
pub open spec fn subject_not_punctuated_report(source: SourceView, subject: Seq<char>) -> Seq<
    MessageView,
> {
    if subject.len() > 0 && punctuation(subject.last()) {
        one(source, ContentView::NoPunctuation { punctuation: subject.last() })
    } else {
        none()
    }
}

/// What the mood rule reports of `subject`.
pub open spec fn imperative_subject_report(source: SourceView, subject: Seq<char>) -> Seq<
    MessageView,
> {
    let word = first_word(subject);
    if word.len() > 0 && imperative_mood(word) == Some(false) {
        one(source, ContentView::Imperative { first_word: word })
    } else {
        none()
    }
}

/// Whether the first `prefix@.len()` characters of `text` are `prefix`.
pub fn starts_with(text: &Vec<char>, prefix: &str) -> (b: bool)
    ensures
        b == prefix@.is_prefix_of(text@),
{
    let wanted = chars_of(prefix);
    if wanted.len() > text.len() {
        return false;
    }
    let mut i: usize = 0;
    while i < wanted.len()
        invariant
            i <= wanted.len() <= text.len(),
            wanted@ == prefix@,
            forall|j: int| 0 <= j < i ==> wanted[j] == text[j],
        decreases wanted.len() - i,
    {
        if wanted[i] != text[i] {
            proof {
                assert(text@.subrange(0, wanted.len() as int)[i as int] != wanted@[i as int]);
            }
            return false;
        }
        i = i + 1;
    }
    proof {
        assert(wanted@ =~= text@.subrange(0, wanted.len() as int));
    }
    true
}

/// Whether `text` begins with the word `word`.
fn starts_with_word(text: &Vec<char>, word: &str) -> (b: bool)
    ensures
        b == begins_with_word(text@, word@),
{
    if !starts_with(text, word) {
        return false;
    }
    let len = word.unicode_len();
    text.len() == len || !is_word_char(text[len])
}

/// The first word of `subject`, empty where it is blank.
pub fn first_word_of<'s>(subject: &'s str) -> (word: &'s str)
    ensures
        word@ == first_word(subject@),
{
    let text = chars_of(subject);
    let len = text.len();
    let start = trim_start_at(&text, 0, len);
    let end = word_end_at(&text, start, len);
    proof {
        assert(text@.subrange(0, len as int) =~= subject@);
        assert(text@.subrange(start as int, len as int) =~= subject@.skip(start as int));
        assert(first_word(subject@) =~= subject@.subrange(start as int, end as int));
    }
    subject.substring_char(start, end)
}

/// The empty-message rule: a message that is empty or blank is reported.
pub fn check_has_message<'s>(
    source: Source<'s>,
    message: &str,
    report: &mut Vec<Message<'s>>,
) -> (failed: bool)
    ensures
        failed == blank(message@),
        reported(old(report)@, final(report)@, has_message_report(source@, message@)),
{
    let text = chars_of(message);
    let len = text.len();
    let end = trim_end_at(&text, 0, len);
    proof {
        assert(text@.subrange(0, len as int) =~= message@);
        lemma_blank_trim(message@);
    }
    if end == 0 {
        push_error(report, source, Content::EmptyCommit(EmptyCommit {  }));
        true
    } else {
        false
    }
}

/// The work-in-progress rule: a message that begins with a mark of work in
/// progress is reported.
pub fn check_wip<'s>(source: Source<'s>, message: &str, report: &mut Vec<Message<'s>>) -> (failed:
    bool)
    ensures
        failed == wip_marker(message@),
        reported(old(report)@, final(report)@, wip_report(source@, message@)),
{
    let text = chars_of(message);
    if starts_with_word(&text, "wip") || starts_with_word(&text, "WIP") || starts_with(
        &text,
        "[WIP]",
    ) || starts_with_word(&text, "Draft") || starts_with(&text, "[Draft]") || starts_with(
        &text,
        "(Draft)",
    ) {
        push_error(report, source, Content::Wip(Wip {  }));
        true
    } else {
        false
    }
}

/// The fixup rule: a message that begins with `fixup! ` is reported.
pub fn check_fixup<'s>(source: Source<'s>, message: &str, report: &mut Vec<Message<'s>>) -> (failed:
    bool)
    ensures
        failed == fixup_marker(message@),
        reported(old(report)@, final(report)@, fixup_report(source@, message@)),
{
    let text = chars_of(message);
    if starts_with(&text, "fixup! ") {
        push_error(report, source, Content::Fixup(Fixup {  }));
        true
    } else {
        false
    }
}

/// Whether `word` does not begin with a lower-case letter; nothing for the
/// empty word. A character of a script without case is no lower-case letter.
pub fn is_capitalized(word: &str) -> (capitalized: Option<bool>)
    ensures
        capitalized == if word@.len() == 0 {
            None
        } else {
            Some(!lowercase(word@[0]))
        },
{
    if word.is_empty() {
        None
    } else {
        Some(!is_lower(word.get_char(0)))
    }
}

/// The capitalization rule: a subject whose first word begins with a
/// lower-case letter is reported, with that word. A blank subject passes.
pub fn check_capitalized_subject<'s>(
    source: Source<'s>,
    subject: &'s str,
    report: &mut Vec<Message<'s>>,
) -> (failed: bool)
    ensures
        failed == (first_word(subject@).len() > 0 && lowercase(first_word(subject@)[0])),
        reported(old(report)@, final(report)@, capitalized_subject_report(source@, subject@)),
{
    let first_word = first_word_of(subject);
    match is_capitalized(first_word) {
        Some(false) => {
            push_error(report, source, Content::CapitalizeSubject(CapitalizeSubject { first_word }));
            true
        },
        _ => false,
    }
}

/// The punctuation rule: a subject that ends in a space, a full stop, an
/// exclamation mark or a question mark is reported, with that character. An
/// empty subject passes.
pub fn check_subject_not_punctuated<'s>(
    source: Source<'s>,
    subject: &str,
    report: &mut Vec<Message<'s>>,
) -> (failed: bool)
    ensures
        failed == (subject@.len() > 0 && punctuation(subject@.last())),
        reported(old(report)@, final(report)@, subject_not_punctuated_report(source@, subject@)),
{
    let text = chars_of(subject);
    if text.len() == 0 {
        return false;
    }
    let last = text[text.len() - 1];
    if last == ' ' || last == '.' || last == '!' || last == '?' {
        push_error(report, source, Content::NoPunctuation(NoPunctuation { punctuation: last }));
        true
    } else {
        false
    }
}

/// The verdict of the mood rule on a subject whose first word is
/// `first_word`, once the word list has said `mood` of that word: the word
/// is reported where the list knows that it is no imperative.
pub fn imperative_verdict<'s>(
    source: Source<'s>,
    first_word: &'s str,
    mood: Option<bool>,
    report: &mut Vec<Message<'s>>,
) -> (failed: bool)
    ensures
        failed == (mood == Some(false)),
        reported(
            old(report)@,
            final(report)@,
            if mood == Some(false) {
                one(source@, ContentView::Imperative { first_word: first_word@ })
            } else {
                none()
            },
        ),
{
    match mood {
        Some(false) => {
            push_error(report, source, Content::Imperative(Imperative { first_word }));
            true
        },
        _ => false,
    }
}

/// The mood rule: a subject whose first word is known not to be a verb in
/// the imperative is reported, with that word. A word that the word list
/// does not hold passes, and so does a blank subject.
pub fn check_imperative_subject<'s>(
    source: Source<'s>,
    subject: &'s str,
    report: &mut Vec<Message<'s>>,
) -> (failed: bool)
    ensures
        failed == (first_word(subject@).len() > 0 && imperative_mood(first_word(subject@)) == Some(
            false,
        )),
        reported(old(report)@, final(report)@, imperative_subject_report(source@, subject@)),
{
    let first_word = first_word_of(subject);
    if first_word.is_empty() {
        return false;
    }
    let mood = is_imperative(first_word);
    imperative_verdict(source, first_word, mood, report)
}

/// Whether `used` is one of the types `allowed`, case disregarded.
pub open spec fn type_allowed(allowed: Seq<Seq<char>>, used: Seq<char>) -> bool {
    exists|i: int| 0 <= i < allowed.len() && caseless_eq(#[trigger] allowed[i], used)
}

/// What the type rule reports of the type `used` where the types `allowed`
/// are the allowed ones.
pub open spec fn allowed_types_report(
    source: SourceView,
    used: Seq<char>,
    allowed: Seq<Seq<char>>,
) -> Seq<MessageView> {
    if type_allowed(allowed, used) {
        none()
    } else {
        one(source, ContentView::DisallowedCommitType { used, allowed })
    }
}

/// The length of `line` up to its soft boundary: the grapheme clusters of
/// what stands before its last space, white space at the end of the line
/// disregarded. A line without a space has no such boundary and is
/// measured whole.
pub open spec fn soft_length(line: Seq<char>) -> usize {
    grapheme_count(before_last_space(trim_end(line)))
}

/// The length of `line`: its grapheme clusters, white space at its end
/// disregarded.
pub open spec fn full_length(line: Seq<char>) -> usize {
    grapheme_count(trim_end(line))
}

/// Whether a line that holds `measured` grapheme clusters up to the
/// boundary that a rule measures it to, and `actual_length` in all, is over
/// the limit `max_length`. A line that is within the limit as a whole is
/// never over it, and neither is one that goes over the limit only behind
/// the boundary.
pub open spec fn over_limit(max_length: usize, measured: usize, actual_length: usize) -> bool {
    max_length < measured && max_length < actual_length
}

/// What the subject-length rule reports of `message`.
pub open spec fn subject_length_report(
    source: SourceView,
    message: Seq<char>,
    max_length: usize,
) -> Seq<MessageView> {
    let line = first_line(message);
    if over_limit(max_length, soft_length(line), full_length(line)) {
        one(
            source,
            ContentView::SubjectTooLong { max_length, actual_length: full_length(line) },
        )
    } else {
        none()
    }
}

/// What a line-length rule reports of one line; `soft` tells whether the
/// limit is a soft one.
pub open spec fn line_report(source: SourceView, line: Seq<char>, max_length: usize, soft: bool) -> Seq<
    MessageView,
> {
    let measured = if soft {
        soft_length(line)
    } else {
        full_length(line)
    };
    if over_limit(max_length, measured, full_length(line)) {
        one(source, ContentView::LineTooLong { max_length, actual_length: full_length(line) })
    } else {
        none()
    }
}

/// What a line-length rule reports of a message: what it reports of each
/// line, in the order of the lines. Lines end at a line feed.
pub open spec fn lines_report(
    source: SourceView,
    message: Seq<char>,
    max_length: usize,
    soft: bool,
) -> Seq<MessageView>
    decreases message.len(),
{
    let feed = index_of(message, '\n') as int;
    let first = line_report(source, message.take(feed), max_length, soft);
    if feed < message.len() {
        first + lines_report(source, message.skip(feed + 1), max_length, soft)
    } else {
        first
    }
}

/// What the soft line-length rule reports of `message`.
pub open spec fn line_length_report(source: SourceView, message: Seq<char>, max_length: usize) -> Seq<
    MessageView,
> {
    lines_report(source, message, max_length, true)
}

/// What the hard line-length rule reports of `message`.
pub open spec fn hard_line_length_report(
    source: SourceView,
    message: Seq<char>,
    max_length: usize,
) -> Seq<MessageView> {
    lines_report(source, message, max_length, false)
}

/// What the merge rule reports of a commit with `parent_count` parents.
pub open spec fn merge_commit_report(source: SourceView, parent_count: usize) -> Seq<MessageView> {
    if 1 < parent_count {
        one(source, ContentView::MergeCommitDisallowed)
    } else {
        none()
    }
}

/// Whether one of `allowed` equals `used`, case disregarded.
pub fn type_is_allowed(used: &str, allowed: &Vec<&str>) -> (found: bool)
    ensures
        found == type_allowed(slice_texts(allowed@), used@),
{
    let mut i: usize = 0;
    while i < allowed.len()
        invariant
            i <= allowed.len(),
            forall|j: int| 0 <= j < i ==> !caseless_eq(#[trigger] slice_texts(allowed@)[j], used@),
        decreases allowed.len() - i,
    {
        if eq_caseless(allowed[i], used) {
            proof {
                assert(caseless_eq(slice_texts(allowed@)[i as int], used@));
            }
            return true;
        }
        i = i + 1;
    }
    false
}

/// The verdict of the type rule on the type `used`, once it is known
/// whether one of `allowed` equals it: where none does, the type is
/// reported together with the allowed ones.
pub fn allowed_types_verdict<'s>(
    source: Source<'s>,
    used: &str,
    allowed: &Vec<&str>,
    found: bool,
    report: &mut Vec<Message<'s>>,
) -> (failed: bool)
    ensures
        failed == !found,
        reported(
            old(report)@,
            final(report)@,
            if found {
                none()
            } else {
                one(
                    source@,
                    ContentView::DisallowedCommitType {
                        used: used@,
                        allowed: slice_texts(allowed@),
                    },
                )
            },
        ),
{
    if found {
        return false;
    }
    let mut names: Vec<String> = Vec::new();
    let mut i: usize = 0;
    while i < allowed.len()
        invariant
            i <= allowed.len(),
            names.len() == i,
            forall|j: int| 0 <= j < i ==> (#[trigger] names[j])@ == allowed[j]@,
        decreases allowed.len() - i,
    {
        names.push(allowed[i].to_owned());
        i = i + 1;
    }
    proof {
        assert(texts(names@) =~= slice_texts(allowed@));
    }
    push_error(
        report,
        source,
        Content::DisallowedCommitType(DisallowedCommitType { used: used.to_owned(), allowed: names }),
    );
    true
}

/// The type rule: a type that equals none of the allowed ones, case
/// disregarded, is reported together with the allowed ones.
pub fn check_allowed_types<'s>(
    source: Source<'s>,
    used: &str,
    allowed: Vec<&str>,
    report: &mut Vec<Message<'s>>,
) -> (failed: bool)
    ensures
        failed == !type_allowed(slice_texts(allowed@), used@),
        reported(
            old(report)@,
            final(report)@,
            allowed_types_report(source@, used@, slice_texts(allowed@)),
        ),
{
    let found = type_is_allowed(used, &allowed);
    allowed_types_verdict(source, used, &allowed, found, report)
}

/// The soft and the full length of the line `text[start..end]` of `message`.
fn measure_line(message: &str, text: &Vec<char>, start: usize, end: usize) -> (lengths: (
    usize,
    usize,
))
    requires
        text@ == message@,
        start <= end <= text.len(),
    ensures
        lengths.0 == soft_length(message@.subrange(start as int, end as int)),
        lengths.1 == full_length(message@.subrange(start as int, end as int)),
{
    let trimmed = trim_end_at(text, start, end);
    let boundary = match rfind_at(text, start, trimmed, ' ') {
        Some(space) => space,
        None => trimmed,
    };
    proof {
        let line = message@.subrange(start as int, end as int);
        assert(trim_end(line) =~= message@.subrange(start as int, trimmed as int));
        assert(before_last_space(trim_end(line)) =~= message@.subrange(
            start as int,
            boundary as int,
        ));
    }
    let soft = count_graphemes(message.substring_char(start, boundary));
    let full = count_graphemes(message.substring_char(start, trimmed));
    (soft, full)
}

/// The verdict of the subject-length rule on a subject that measures
/// `soft_length` up to its last space and `actual_length` in all: it is
/// reported, with its full length, where both are over the limit.
pub fn subject_length_verdict<'s>(
    source: Source<'s>,
    max_length: usize,
    soft_length: usize,
    actual_length: usize,
    report: &mut Vec<Message<'s>>,
) -> (failed: bool)
    ensures
        failed == over_limit(max_length, soft_length, actual_length),
        reported(
            old(report)@,
            final(report)@,
            if over_limit(max_length, soft_length, actual_length) {
                one(source@, ContentView::SubjectTooLong { max_length, actual_length })
            } else {
                none()
            },
        ),
{
    if max_length < soft_length && max_length < actual_length {
        push_error(
            report,
            source,
            Content::SubjectTooLong(SubjectTooLong { max_length, actual_length }),
        );
        true
    } else {
        false
    }
}

/// The verdict of a line-length rule on a line that measures `measured` by
/// the rule and `actual_length` in all: it is reported, with its full
/// length, where both are over the limit.
pub fn line_length_verdict<'s>(
    source: Source<'s>,
    max_length: usize,
    measured: usize,
    actual_length: usize,
    report: &mut Vec<Message<'s>>,
) -> (failed: bool)
    ensures
        failed == over_limit(max_length, measured, actual_length),
        reported(
            old(report)@,
            final(report)@,
            if over_limit(max_length, measured, actual_length) {
                one(source@, ContentView::LineTooLong { max_length, actual_length })
            } else {
                none()
            },
        ),
{
    if max_length < measured && max_length < actual_length {
        push_error(report, source, Content::LineTooLong(LineTooLong { max_length, actual_length }));
        true
    } else {
        false
    }
}

/// The subject-length rule: the first line is reported, with its full
/// length, where it is longer than `max_length` and what stands before its
/// last space is so too. A line without a space is measured whole. Lengths
/// count grapheme clusters, white space at the end of the line disregarded.
pub fn check_subject_length<'s>(
    source: Source<'s>,
    message: &str,
    max_length: usize,
    report: &mut Vec<Message<'s>>,
) -> (failed: bool)
    ensures
        failed == over_limit(
            max_length,
            soft_length(first_line(message@)),
            full_length(first_line(message@)),
        ),
        reported(old(report)@, final(report)@, subject_length_report(source@, message@, max_length)),
{
    let text = chars_of(message);
    let len = text.len();
    let end = find_at(&text, 0, len, '\n');
    proof {
        assert(text@.subrange(0, len as int) =~= message@);
        assert(first_line(message@) =~= message@.subrange(0, end as int));
    }
    let (soft, full) = measure_line(message, &text, 0, end);
    subject_length_verdict(source, max_length, soft, full, report)
}

/// Holds every line of `message` against the limit `max_length`, a soft
/// one or a hard one.
fn check_lines<'s>(
    source: Source<'s>,
    message: &str,
    max_length: usize,
    soft: bool,
    report: &mut Vec<Message<'s>>,
) -> (failed: bool)
    ensures
        failed == (lines_report(source@, message@, max_length, soft).len() > 0),
        reported(old(report)@, final(report)@, lines_report(source@, message@, max_length, soft)),
{
    let text = chars_of(message);
    let len = text.len();
    let ghost before = views(report@);
    let ghost total = lines_report(source@, message@, max_length, soft);
    let mut failed = false;
    let mut start: usize = 0;
    let mut done = false;
    proof {
        assert(message@.skip(0) =~= message@);
    }
    while !done
        invariant
            text@ == message@,
            len == text.len(),
            start <= len,
            total == lines_report(source@, message@, max_length, soft),
            !done ==> before + total =~= views(report@) + lines_report(
                source@,
                message@.skip(start as int),
                max_length,
                soft,
            ),
            done ==> before + total =~= views(report@),
            views(report@).len() >= before.len(),
            failed == (views(report@).len() > before.len()),
        decreases len - start + (if done { 0int } else { 1int }),
    {
        let end = find_at(&text, start, len, '\n');
        let ghost rest = message@.skip(start as int);
        let ghost so_far = views(report@);
        proof {
            assert(text@.subrange(start as int, len as int) =~= rest);
            assert(rest.take(end - start) =~= message@.subrange(start as int, end as int));
            if end < len {
                assert(rest.skip(end - start + 1) =~= message@.skip(end + 1));
            }
        }
        let (soft_length, full_length) = measure_line(message, &text, start, end);
        let measured = if soft {
            soft_length
        } else {
            full_length
        };
        if line_length_verdict(source, max_length, measured, full_length, report) {
            failed = true;
        }
        proof {
            let first = line_report(source@, rest.take(end - start), max_length, soft);
            assert(views(report@) =~= so_far + first);
            assert(views(report@).len() == so_far.len() + first.len());
            assert(first.len() == if over_limit(max_length, measured, full_length) {
                1int
            } else {
                0int
            });
            if end < len {
                assert(before + total =~= views(report@) + lines_report(
                    source@,
                    message@.skip(end + 1),
                    max_length,
                    soft,
                ));
            }
        }
        if end == len {
            done = true;
        } else {
            start = end + 1;
        }
    }
    proof {
        assert(views(report@).len() == before.len() + total.len());
    }
    failed
}

/// The soft line-length rule: every line, in order, is reported with its
/// full length where it is longer than `max_length` and what stands before
/// its last space is so too. A line without a space is measured whole.
pub fn check_line_length<'s>(
    source: Source<'s>,
    message: &str,
    max_length: usize,
    report: &mut Vec<Message<'s>>,
) -> (failed: bool)
    ensures
        failed == (line_length_report(source@, message@, max_length).len() > 0),
        reported(old(report)@, final(report)@, line_length_report(source@, message@, max_length)),
{
    check_lines(source, message, max_length, true, report)
}

/// The hard line-length rule: every line, in order, is reported with its
/// length where it is longer than `max_length`.
pub fn check_hard_line_length<'s>(
    source: Source<'s>,
    message: &str,
    max_length: usize,
    report: &mut Vec<Message<'s>>,
) -> (failed: bool)
    ensures
        failed == (hard_line_length_report(source@, message@, max_length).len() > 0),
        reported(
            old(report)@,
            final(report)@,
            hard_line_length_report(source@, message@, max_length),
        ),
{
    check_lines(source, message, max_length, false, report)
}

/// The merge rule: a commit with more than one parent is reported.
pub fn check_merge_commit<'s>(
    source: Source<'s>,
    parent_count: usize,
    report: &mut Vec<Message<'s>>,
) -> (failed: bool)
    ensures
        failed == (1 < parent_count),
        reported(old(report)@, final(report)@, merge_commit_report(source@, parent_count)),
{
    if 1 < parent_count {
        push_error(report, source, Content::MergeCommitDisallowed(MergeCommitDisallowed {  }));
        true
    } else {
        false
    }
}

/// `report` where the rule is enabled, nothing where it is not.
pub open spec fn when(enabled: bool, report: Seq<MessageView>) -> Seq<MessageView> {
    if enabled {
        report
    } else {
        none()
    }
}

/// What the rules that come before parsing report: the empty-message rule
/// alone where it fails, else the work-in-progress rule and the fixup rule,
/// each where `config` enables it.
pub open spec fn gate_report(source: SourceView, message: Seq<char>, config: &Config) -> Seq<
    MessageView,
> {
    if blank(message) {
        has_message_report(source, message)
    } else {
        when(config.no_wip(), wip_report(source, message)) + when(
            config.no_fixup(),
            fixup_report(source, message),
        )
    }
}

/// What the rules on the subject report: mood, capitalization and
/// punctuation, each where `config` enables it.
pub open spec fn subject_report(source: SourceView, subject: Seq<char>, config: &Config) -> Seq<
    MessageView,
> {
    when(config.imperative_subject(), imperative_subject_report(source, subject)) + when(
        config.subject_capitalized(),
        capitalized_subject_report(source, subject),
    ) + when(config.subject_not_punctuated(), subject_not_punctuated_report(source, subject))
}

/// What the type rule reports where it runs: where the message has a type
/// and `config` allows some types only.
pub open spec fn type_report(source: SourceView, type_: Option<Seq<char>>, config: &Config) -> Seq<
    MessageView,
> {
    when(
        config.spec_allowed_types().len() > 0 && type_ is Some,
        allowed_types_report(source, type_.unwrap(), config.spec_allowed_types()),
    )
}

/// What the rules on a parsed message report: those on the subject, then
/// the one on the type.
pub open spec fn style_report(source: SourceView, parts: Parts, config: &Config) -> Seq<
    MessageView,
> {
    subject_report(source, parts.subject, config) + type_report(source, parts.type_, config)
}

/// What is reported of a message once a grammar has been tried on it: the
/// parser's error where it could not be read, else what the rules on a
/// parsed message report.
pub open spec fn parsed_report(
    source: SourceView,
    parsed: Result<Parts, Seq<char>>,
    config: &Config,
) -> Seq<MessageView> {
    match parsed {
        Ok(parts) => style_report(source, parts, config),
        Err(error) => one(
            source,
            ContentView::InvalidCommitFormat { error, style: config.style() },
        ),
    }
}

/// What the length rules report: subject length, soft line length and
/// hard line length, each where its limit is not 0.
pub open spec fn length_report(source: SourceView, message: Seq<char>, config: &Config) -> Seq<
    MessageView,
> {
    when(
        config.subject_length() != 0,
        subject_length_report(source, message, config.subject_length()),
    ) + when(
        config.line_length() != 0,
        line_length_report(source, message, config.line_length()),
    ) + when(
        config.hard_line_length() != 0,
        hard_line_length_report(source, message, config.hard_line_length()),
    )
}

/// Every diagnostic on `message` under `config`, in the order in which the
/// rules run. Where a rule that comes before parsing fails, nothing else is
/// reported. Else the message is parsed with the configured grammar and
/// held against the rules on parsed messages, then against the length
/// rules, which read the text as it stands.
pub open spec fn message_report(source: SourceView, message: Seq<char>, config: &Config) -> Seq<
    MessageView,
> {
    let gate = gate_report(source, message, config);
    if gate.len() > 0 {
        gate
    } else {
        parsed_report(source, parse_outcome(config.style(), message), config) + length_report(
            source,
            message,
            config,
        )
    }
}

/// Holds `subject` against the rules on the subject that `config` enables.
pub fn check_subject<'s>(
    source: Source<'s>,
    subject: &'s str,
    config: &Config,
    report: &mut Vec<Message<'s>>,
) -> (failed: bool)
    ensures
        failed == (subject_report(source@, subject@, config).len() > 0),
        reported(old(report)@, final(report)@, subject_report(source@, subject@, config)),
{
    let ghost before = views(report@);
    let mut failed = false;
    if config.imperative_subject() {
        let step = check_imperative_subject(source, subject, report);
        failed = failed || step;
    }
    let ghost mood = when(
        config.imperative_subject(),
        imperative_subject_report(source@, subject@),
    );
    assert(views(report@) =~= before + mood);
    if config.subject_capitalized() {
        let step = check_capitalized_subject(source, subject, report);
        failed = failed || step;
    }
    let ghost capital = when(
        config.subject_capitalized(),
        capitalized_subject_report(source@, subject@),
    );
    assert(views(report@) =~= before + mood + capital);
    if config.subject_not_punctuated() {
        let step = check_subject_not_punctuated(source, subject, report);
        failed = failed || step;
    }
    let ghost punctuated = when(
        config.subject_not_punctuated(),
        subject_not_punctuated_report(source@, subject@),
    );
    assert(views(report@) =~= before + mood + capital + punctuated);
    assert(failed == (mood.len() > 0 || capital.len() > 0 || punctuated.len() > 0));
    failed
}

/// Holds the type of a message, if it has one, against the types that
/// `config` allows, if it allows some only.
pub fn check_type<'s>(
    source: Source<'s>,
    type_: Option<&str>,
    config: &Config,
    report: &mut Vec<Message<'s>>,
) -> (failed: bool)
    ensures
        failed == (type_report(source@, opt_text(type_), config).len() > 0),
        reported(old(report)@, final(report)@, type_report(source@, opt_text(type_), config)),
{
    let allowed_types = config.allowed_types();
    if allowed_types.len() == 0 {
        return false;
    }
    match type_ {
        Some(used_type) => check_allowed_types(source, used_type, allowed_types, report),
        None => false,
    }
}

/// Holds a message that a grammar has been tried on against the rules on
/// parsed messages. A message that could not be read is reported as such,
/// with the parser's error and the style.
pub fn check_parsed<'s>(
    source: Source<'s>,
    parsed: Result<Parsed<'s>, String>,
    config: &Config,
    report: &mut Vec<Message<'s>>,
) -> (failed: bool)
    ensures
        failed == (parsed_report(source@, outcome(parsed), config).len() > 0),
        reported(old(report)@, final(report)@, parsed_report(source@, outcome(parsed), config)),
{
    let ghost before = views(report@);
    match parsed {
        Err(error) => {
            push_error(
                report,
                source,
                Content::InvalidCommitFormat(InvalidCommitFormat { error, style: config.style() }),
            );
            true
        },
        Ok(parsed) => {
            let ghost parts = parsed@.parts();
            let ghost subject = subject_report(source@, parts.subject, config);
            let ghost type_ = type_report(source@, parts.type_, config);
            let subject_failed = check_subject(source, parsed.subject(), config, report);
            assert(views(report@) =~= before + subject);
            let type_failed = check_type(source, parsed.type_(), config, report);
            assert(views(report@) =~= before + (subject + type_));
            subject_failed || type_failed
        },
    }
}

/// Holds `message` against the length rules that `config` enables.
pub fn check_lengths<'s>(
    source: Source<'s>,
    message: &str,
    config: &Config,
    report: &mut Vec<Message<'s>>,
) -> (failed: bool)
    ensures
        failed == (length_report(source@, message@, config).len() > 0),
        reported(old(report)@, final(report)@, length_report(source@, message@, config)),
{
    let ghost before = views(report@);
    let mut failed = false;
    if config.subject_length() != 0 {
        let step = check_subject_length(source, message, config.subject_length(), report);
        failed = failed || step;
    }
    let ghost subject = when(
        config.subject_length() != 0,
        subject_length_report(source@, message@, config.subject_length()),
    );
    assert(views(report@) =~= before + subject);
    if config.line_length() != 0 {
        let step = check_line_length(source, message, config.line_length(), report);
        failed = failed || step;
    }
    let ghost soft = when(
        config.line_length() != 0,
        line_length_report(source@, message@, config.line_length()),
    );
    assert(views(report@) =~= before + subject + soft);
    if config.hard_line_length() != 0 {
        let step = check_hard_line_length(source, message, config.hard_line_length(), report);
        failed = failed || step;
    }
    let ghost hard = when(
        config.hard_line_length() != 0,
        hard_line_length_report(source@, message@, config.hard_line_length()),
    );
    assert(views(report@) =~= before + subject + soft + hard);
    assert(failed == (subject.len() > 0 || soft.len() > 0 || hard.len() > 0));
    failed
}

/// Holds `message` against the rules that come before parsing.
pub fn check_gate<'s>(
    source: Source<'s>,
    message: &str,
    config: &Config,
    report: &mut Vec<Message<'s>>,
) -> (failed: bool)
    ensures
        failed == (gate_report(source@, message@, config).len() > 0),
        reported(old(report)@, final(report)@, gate_report(source@, message@, config)),
{
    let ghost before = views(report@);
    if check_has_message(source, message, report) {
        return true;
    }
    let mut failed = false;
    if config.no_wip() {
        let step = check_wip(source, message, report);
        failed = failed || step;
    }
    let ghost wip = when(config.no_wip(), wip_report(source@, message@));
    assert(views(report@) =~= before + wip);
    if config.no_fixup() {
        let step = check_fixup(source, message, report);
        failed = failed || step;
    }
    let ghost fixup = when(config.no_fixup(), fixup_report(source@, message@));
    assert(views(report@) =~= before + wip + fixup);
    assert(failed == (wip.len() > 0 || fixup.len() > 0));
    failed
}

/// Holds `message` against every rule that `config` enables and adds a
/// diagnostic to `report` for every violation, in the order of the rules.
/// The result tells whether there was any.
pub fn check_message<'s>(
    source: Source<'s>,
    message: &'s str,
    config: &Config,
    report: &mut Vec<Message<'s>>,
) -> (failed: bool)
    ensures
        failed == (message_report(source@, message@, config).len() > 0),
        reported(old(report)@, final(report)@, message_report(source@, message@, config)),
{
    let ghost before = views(report@);
    if check_gate(source, message, config, report) {
        return true;
    }
    let parsed = Parsed::parse(config.style(), message);
    let ghost style = parsed_report(source@, outcome(parsed), config);
    let ghost lengths = length_report(source@, message@, config);
    let style_failed = check_parsed(source, parsed, config, report);
    assert(views(report@) =~= before + style);
    let lengths_failed = check_lengths(source, message, config, report);
    assert(views(report@) =~= before + (style + lengths));
    style_failed || lengths_failed
}

/// Every diagnostic on a commit with the message `message` and
/// `parent_count` parents: those on the message, then that of the merge
/// rule where `config` does not allow merge commits.
pub open spec fn commit_report(
    source: SourceView,
    message: Seq<char>,
    parent_count: usize,
    config: &Config,
) -> Seq<MessageView> {
    message_report(source, message, config) + when(
        !config.merge_commit(),
        merge_commit_report(source, parent_count),
    )
}

/// Holds a commit against the rules, once it is known whether its author
/// is ignored: the commit of an ignored author passes unread. Any other is
/// held against the rules on its message and, where `config` does not
/// allow merge commits, against the merge rule.
pub fn commit_verdict<'s>(
    source: Source<'s>,
    ignored: bool,
    message: &'s str,
    parent_count: usize,
    config: &Config,
    report: &mut Vec<Message<'s>>,
) -> (failed: bool)
    ensures
        ignored ==> !failed && final(report)@ == old(report)@,
        !ignored ==> failed == (commit_report(source@, message@, parent_count, config).len() > 0),
        !ignored ==> reported(
            old(report)@,
            final(report)@,
            commit_report(source@, message@, parent_count, config),
        ),
{
    if ignored {
        return false;
    }
    let ghost before = views(report@);
    let ghost on_message = message_report(source@, message@, config);
    let ghost on_merge = when(!config.merge_commit(), merge_commit_report(source@, parent_count));
    let message_failed = check_message(source, message, config, report);
    if config.merge_commit() {
        assert(views(report@) =~= before + (on_message + on_merge));
        return message_failed;
    }
    let merge_failed = check_merge_commit(source, parent_count, report);
    assert(views(report@) =~= before + (on_message + on_merge));
    message_failed || merge_failed
}

/// Holds the commit of `author` against the rules, unless `config` ignores
/// that author. An author pattern that is no regular expression is an
/// error, and nothing is reported then.
pub fn check_commit<'s>(
    source: Source<'s>,
    author: &str,
    message: &'s str,
    parent_count: usize,
    config: &Config,
    report: &mut Vec<Message<'s>>,
) -> (failed: Result<bool, String>)
    ensures
        match author_ignored(config, author@) {
            Err(error) => failed is Err && failed.unwrap_err()@ == error && final(report)@ == old(
                report,
            )@,
            Ok(true) => failed == Ok::<bool, String>(false) && final(report)@ == old(report)@,
            Ok(false) => failed == Ok::<bool, String>(
                commit_report(source@, message@, parent_count, config).len() > 0,
            ) && reported(
                old(report)@,
                final(report)@,
                commit_report(source@, message@, parent_count, config),
            ),
        },
{
    match ignores_author(config, author) {
        Err(error) => Err(error),
        Ok(ignored) => Ok(commit_verdict(source, ignored, message, parent_count, config, report)),
    }
}

/// Whether `message` fails under `config`: whether any rule reports it.
pub open spec fn verdict(message: Seq<char>, config: &Config) -> bool {
    message_report(SourceView::Path(Seq::empty()), message, config).len() > 0
}

/// A message that is empty or blank is reported as an empty commit and as
/// nothing else, whatever the configuration.
pub proof fn lemma_blank_message(source: SourceView, message: Seq<char>, config: &Config)
    requires
        blank(message),
    ensures
        message_report(source, message, config) == one(source, ContentView::EmptyCommit),
{
}

/// Where the work-in-progress rule is enabled, a message that begins with
/// `wip `, `WIP `, `[WIP] `, `Draft `, `[Draft] ` or `(Draft) ` is reported
/// as work in progress and as nothing else: it is not parsed.
pub proof fn lemma_wip_message(source: SourceView, message: Seq<char>, config: &Config)
    requires
        config.no_wip(),
        "wip "@.is_prefix_of(message) || "WIP "@.is_prefix_of(message) || "[WIP] "@.is_prefix_of(
            message,
        ) || "Draft "@.is_prefix_of(message) || "[Draft] "@.is_prefix_of(message)
            || "(Draft) "@.is_prefix_of(message),
    ensures
        message_report(source, message, config) == one(source, ContentView::Wip),
{
    reveal_strlit("wip ");
    reveal_strlit("WIP ");
    reveal_strlit("[WIP] ");
    reveal_strlit("Draft ");
    reveal_strlit("[Draft] ");
    reveal_strlit("(Draft) ");
    reveal_strlit("wip");
    reveal_strlit("WIP");
    reveal_strlit("[WIP]");
    reveal_strlit("Draft");
    reveal_strlit("[Draft]");
    reveal_strlit("(Draft)");
    reveal_strlit("fixup! ");
    let first = message[0];
    if "wip "@.is_prefix_of(message) {
        lemma_first_char(message, "wip "@);
        lemma_prefix_word(message, "wip "@, "wip"@);
    } else if "WIP "@.is_prefix_of(message) {
        lemma_first_char(message, "WIP "@);
        lemma_prefix_word(message, "WIP "@, "WIP"@);
    } else if "[WIP] "@.is_prefix_of(message) {
        lemma_first_char(message, "[WIP] "@);
        lemma_prefix_of_prefix(message, "[WIP] "@, "[WIP]"@);
    } else if "Draft "@.is_prefix_of(message) {
        lemma_first_char(message, "Draft "@);
        lemma_prefix_word(message, "Draft "@, "Draft"@);
    } else if "[Draft] "@.is_prefix_of(message) {
        lemma_first_char(message, "[Draft] "@);
        lemma_prefix_of_prefix(message, "[Draft] "@, "[Draft]"@);
    } else {
        lemma_first_char(message, "(Draft) "@);
        lemma_prefix_of_prefix(message, "(Draft) "@, "(Draft)"@);
    }
    assert(first == 'w' || first == 'W' || first == '[' || first == 'D' || first == '(');
    assert(wip_marker(message));
    assert(!blank(message)) by {
        assert(!whitespace(first));
    }
    assert(!fixup_marker(message)) by {
        if fixup_marker(message) {
            lemma_first_char(message, "fixup! "@);
        }
    }
    assert(gate_report(source, message, config) =~= one(source, ContentView::Wip));
}

/// A text begins with the first character of every text that it begins
/// with.
proof fn lemma_first_char(text: Seq<char>, prefix: Seq<char>)
    requires
        prefix.is_prefix_of(text),
        prefix.len() > 0,
    ensures
        text.len() > 0,
        text[0] == prefix[0],
{
    assert(prefix[0] == text.subrange(0, prefix.len() as int)[0]);
}

/// A text that begins with `longer` begins with every text that `longer`
/// begins with.
proof fn lemma_prefix_of_prefix(text: Seq<char>, longer: Seq<char>, shorter: Seq<char>)
    requires
        longer.is_prefix_of(text),
        shorter.is_prefix_of(longer),
    ensures
        shorter.is_prefix_of(text),
{
    assert(shorter =~= text.subrange(0, shorter.len() as int)) by {
        assert forall|i: int| 0 <= i < shorter.len() implies shorter[i] == text[i] by {
            assert(shorter[i] == longer.subrange(0, shorter.len() as int)[i]);
            assert(longer[i] == text.subrange(0, longer.len() as int)[i]);
        }
    }
}

/// A text that begins with a word and a space begins with that word.
proof fn lemma_prefix_word(text: Seq<char>, spaced: Seq<char>, word: Seq<char>)
    requires
        spaced.is_prefix_of(text),
        spaced =~= word.push(' '),
    ensures
        begins_with_word(text, word),
{
    assert(word =~= spaced.subrange(0, word.len() as int));
    lemma_prefix_of_prefix(text, spaced, word);
    assert(text[word.len() as int] == text.subrange(0, spaced.len() as int)[word.len() as int]);
    assert(spaced[word.len() as int] == ' ');
}

/// Where the fixup rule is enabled, a message that begins with `fixup! ` is
/// reported as a fixup commit and as nothing else.
pub proof fn lemma_fixup_message(source: SourceView, message: Seq<char>, config: &Config)
    requires
        config.no_fixup(),
        "fixup! "@.is_prefix_of(message),
    ensures
        message_report(source, message, config) == one(source, ContentView::Fixup),
{
    reveal_strlit("wip");
    reveal_strlit("WIP");
    reveal_strlit("[WIP]");
    reveal_strlit("Draft");
    reveal_strlit("[Draft]");
    reveal_strlit("(Draft)");
    reveal_strlit("fixup! ");
    let first = message[0];
    lemma_first_char(message, "fixup! "@);
    assert(first == 'f');
    assert(!whitespace(first));
    assert(!wip_marker(message)) by {
        if "wip"@.is_prefix_of(message) {
            lemma_first_char(message, "wip"@);
        }
        if "WIP"@.is_prefix_of(message) {
            lemma_first_char(message, "WIP"@);
        }
        if "[WIP]"@.is_prefix_of(message) {
            lemma_first_char(message, "[WIP]"@);
        }
        if "Draft"@.is_prefix_of(message) {
            lemma_first_char(message, "Draft"@);
        }
        if "[Draft]"@.is_prefix_of(message) {
            lemma_first_char(message, "[Draft]"@);
        }
        if "(Draft)"@.is_prefix_of(message) {
            lemma_first_char(message, "(Draft)"@);
        }
    }
    assert(!blank(message));
    assert(gate_report(source, message, config) =~= one(source, ContentView::Fixup));
}

/// The subject-length rule on the first line of a message:
/// - a line of no more grapheme clusters than the limit passes, so one of
///   exactly the limit does;
/// - a line that holds no more clusters than the limit before its last
///   space passes: it goes over the limit only behind that space;
/// - every other line fails, and is reported with the length of the whole
///   line; so a line of one cluster more than the limit fails unless it
///   goes over the limit only behind its last space, and a line of one
///   cluster more that holds no space fails.
pub proof fn lemma_subject_length(source: SourceView, message: Seq<char>, max_length: usize)
    ensures
        full_length(first_line(message)) <= max_length ==> subject_length_report(
            source,
            message,
            max_length,
        ) == none(),
        soft_length(first_line(message)) <= max_length ==> subject_length_report(
            source,
            message,
            max_length,
        ) == none(),
        full_length(first_line(message)) > max_length && soft_length(first_line(message))
            > max_length ==> subject_length_report(source, message, max_length) == one(
            source,
            ContentView::SubjectTooLong {
                max_length,
                actual_length: full_length(first_line(message)),
            },
        ),
        full_length(first_line(message)) == max_length + 1 && !trim_end(
            first_line(message),
        ).contains(' ') ==> subject_length_report(source, message, max_length) == one(
            source,
            ContentView::SubjectTooLong {
                max_length,
                actual_length: full_length(first_line(message)),
            },
        ),
{
    lemma_no_space_measured_whole(first_line(message));
}

/// A line without a space measures the same up to its soft boundary as in
/// all.
pub proof fn lemma_no_space_measured_whole(line: Seq<char>)
    ensures
        !trim_end(line).contains(' ') ==> soft_length(line) == full_length(line),
{
    lemma_last_index_of(trim_end(line), ' ');
}

/// The line-length rules on one line. Under the soft rule a line of no
/// more grapheme clusters than the limit passes, and so does one that goes
/// over the limit only behind its last space; every other line is reported
/// with the length of the whole line. Under the hard rule a line is
/// reported exactly where it holds more clusters than the limit.
pub proof fn lemma_line_length(source: SourceView, line: Seq<char>, max_length: usize)
    ensures
        full_length(line) <= max_length || soft_length(line) <= max_length ==> line_report(
            source,
            line,
            max_length,
            true,
        ) == none(),
        full_length(line) > max_length && soft_length(line) > max_length ==> line_report(
            source,
            line,
            max_length,
            true,
        ) == one(
            source,
            ContentView::LineTooLong { max_length, actual_length: full_length(line) },
        ),
        full_length(line) <= max_length ==> line_report(source, line, max_length, false)
            == none(),
        full_length(line) > max_length ==> line_report(source, line, max_length, false) == one(
            source,
            ContentView::LineTooLong { max_length, actual_length: full_length(line) },
        ),
{
}

/// The punctuation rule reports a subject exactly where it ends in a
/// space, a full stop, an exclamation mark or a question mark, and reports
/// that character. A subject that ends in a letter or a digit passes.
pub proof fn lemma_punctuation(source: SourceView, subject: Seq<char>)
    requires
        subject.len() > 0,
    ensures
        (subject.last() == ' ' || subject.last() == '.' || subject.last() == '!' || subject.last()
            == '?') ==> subject_not_punctuated_report(source, subject) == one(
            source,
            ContentView::NoPunctuation { punctuation: subject.last() },
        ),
        !(subject.last() == ' ' || subject.last() == '.' || subject.last() == '!' || subject.last()
            == '?') ==> subject_not_punctuated_report(source, subject) == none(),
        word_char(subject.last()) ==> subject_not_punctuated_report(source, subject) == none(),
{
}

/// A line-length rule reports as many lines of a message whatever the
/// source is.
proof fn lemma_lines_report_len(
    first: SourceView,
    second: SourceView,
    message: Seq<char>,
    max_length: usize,
    soft: bool,
)
    ensures
        lines_report(first, message, max_length, soft).len() == lines_report(
            second,
            message,
            max_length,
            soft,
        ).len(),
    decreases message.len(),
{
    let feed = index_of(message, '\n') as int;
    if feed < message.len() {
        lemma_lines_report_len(first, second, message.skip(feed + 1), max_length, soft);
    }
}

/// The rules that come before parsing report as many diagnostics whatever
/// the source is, and under two configurations that read alike.
proof fn lemma_gate_report_len(
    first: SourceView,
    second: SourceView,
    message: Seq<char>,
    config: &Config,
    other: &Config,
)
    requires
        config.reads_as(other),
    ensures
        gate_report(first, message, config).len() == gate_report(second, message, other).len(),
{
}

/// The rules on a parsed message report as many diagnostics whatever the
/// source is, and under two configurations that read alike.
proof fn lemma_parsed_report_len(
    first: SourceView,
    second: SourceView,
    parsed: Result<Parts, Seq<char>>,
    config: &Config,
    other: &Config,
)
    requires
        config.reads_as(other),
    ensures
        parsed_report(first, parsed, config).len() == parsed_report(second, parsed, other).len(),
{
    if let Ok(parts) = parsed {
        assert(subject_report(first, parts.subject, config).len() == subject_report(
            second,
            parts.subject,
            other,
        ).len());
        assert(type_report(first, parts.type_, config).len() == type_report(
            second,
            parts.type_,
            other,
        ).len());
    }
}

/// The length rules report as many diagnostics whatever the source is, and
/// under two configurations that read alike.
proof fn lemma_length_report_len(
    first: SourceView,
    second: SourceView,
    message: Seq<char>,
    config: &Config,
    other: &Config,
)
    requires
        config.reads_as(other),
    ensures
        length_report(first, message, config).len() == length_report(second, message, other).len(),
{
    lemma_lines_report_len(first, second, message, config.line_length(), true);
    lemma_lines_report_len(first, second, message, config.hard_line_length(), false);
}

/// The verdict on a message is a function of its text and of what the
/// configuration reads as: whatever the source is, and for two
/// configurations that every getter reads alike, a message fails under
/// both or under neither. So two runs on one message agree.
pub proof fn lemma_verdict(
    source: SourceView,
    message: Seq<char>,
    config: &Config,
    other: &Config,
)
    requires
        config.reads_as(other),
    ensures
        (message_report(source, message, config).len() > 0) == verdict(message, other),
{
    let plain = SourceView::Path(Seq::empty());
    let parsed = parse_outcome(config.style(), message);
    lemma_gate_report_len(source, plain, message, config, other);
    lemma_parsed_report_len(source, plain, parsed, config, other);
    lemma_length_report_len(source, plain, message, config, other);
}

} // verus!
