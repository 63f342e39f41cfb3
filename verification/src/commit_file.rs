//! The message of a commit as it stands in the file that an editor was
//! given: the message proper, then comment lines, which begin with `#`, and
//! below a scissors line the diff of the commit.

use crate::text::chars_of;
use crate::text::find_at;
use crate::text::lemma_index_of;
use crate::text::trim;
use crate::text::trim_end_at;
use crate::text::trim_start_at;
use vstd::prelude::*;

verus! {

/// The scissors line: it and everything below it is no part of the message.
pub open spec fn cut_marker() -> Seq<char> {
    "# ------------------------ >8 ------------------------"@
}

/// Whether a line break stands at `i` and what follows it is text: neither
/// another line break nor the `#` of a comment.
pub open spec fn text_after_break(s: Seq<char>, i: int) -> bool {
    0 <= i < s.len() - 1 && s[i] == '\n' && s[i + 1] != '\n' && s[i + 1] != '#'
}

/// Whether `s` is made of comment lines and empty lines alone, and begins
/// with a comment.
pub open spec fn all_comments(s: Seq<char>) -> bool {
    s.len() > 0 && s[0] == '#' && forall|i: int| !text_after_break(s, i)
}

/// Whether what stands in `s` from `p` on is nothing, or comment lines
/// alone, each set off by one line break or more, the last of them without
/// a line break behind it.
pub open spec fn comments_from(s: Seq<char>, p: int) -> bool {
    p == s.len() || (0 <= p < s.len() && s[p] == '\n' && s.last() != '\n' && forall|i: int|
        p <= i ==> !text_after_break(s, i))
}

/// The least position from `p` on at which the comments at the end of `s`
/// can begin.
pub open spec fn comments_start_from(s: Seq<char>, p: nat) -> nat
    decreases s.len() - p,
{
    if p >= s.len() {
        s.len()
    } else if comments_from(s, p as int) {
        p
    } else {
        comments_start_from(s, p + 1)
    }
}

/// Where the comments at the end of `s` begin: the least position from
/// which on `s` holds comment lines alone.
pub open spec fn comments_start(s: Seq<char>) -> nat {
    comments_start_from(s, 0)
}

/// What stands in `s` before the first place at which `needle` stands; all
/// of `s` where `needle` stands nowhere in it.
pub open spec fn before_text(s: Seq<char>, needle: Seq<char>) -> Seq<char>
    decreases s.len(),
{
    if s.len() == 0 || needle.is_prefix_of(s) {
        Seq::empty()
    } else {
        seq![s[0]] + before_text(s.skip(1), needle)
    }
}

/// The message proper of the commit file `file`. A file that is blank or
/// holds comments alone has none. Else it is what is left once the
/// scissors line and what follows it are cut off, then the comment lines at
/// the end, and the white space around what then remains.
pub open spec fn commit_message(file: Seq<char>) -> Seq<char> {
    let whole = trim(file);
    if whole.len() == 0 || all_comments(whole) {
        Seq::empty()
    } else {
        let kept = trim(before_text(whole, cut_marker()));
        kept.take(comments_start(kept) as int)
    }
}

/// The comments at the end of `s` begin at the one position before which
/// they cannot begin and at which they can.
pub proof fn lemma_comments_start(s: Seq<char>, from: nat, p: nat)
    requires
        from <= p <= s.len(),
        comments_from(s, p as int),
        forall|q: int| from <= q < p ==> !comments_from(s, q),
    ensures
        comments_start_from(s, from) == p,
    decreases p - from,
{
    if from < p {
        lemma_comments_start(s, from + 1, p);
    }
}

/// What stands before the first `needle` ends at `at` where `needle` stands
/// at `at` and nowhere before; it is all of `s` where `needle` stands
/// nowhere.
pub proof fn lemma_before_text(s: Seq<char>, needle: Seq<char>, at: int)
    requires
        0 <= at <= s.len(),
        forall|i: int| 0 <= i < at ==> !needle.is_prefix_of(#[trigger] s.skip(i)),
        at == s.len() || needle.is_prefix_of(s.skip(at)),
    ensures
        before_text(s, needle) == s.take(at),
    decreases at,
{
    assert(s.skip(0) =~= s);
    if at == 0 {
        assert(s.take(0) =~= Seq::<char>::empty());
    } else {
        let rest = s.skip(1);
        assert forall|i: int| 0 <= i < at - 1 implies !needle.is_prefix_of(
            #[trigger] rest.skip(i),
        ) by {
            assert(rest.skip(i) =~= s.skip(i + 1));
        }
        assert(rest.skip(at - 1) =~= s.skip(at));
        lemma_before_text(rest, needle, at - 1);
        assert(seq![s[0]] + rest.take(at - 1) =~= s.take(at));
    }
}

/// Whether `needle` stands in `text` at `at`.
fn stands_at(text: &Vec<char>, at: usize, end: usize, needle: &Vec<char>) -> (b: bool)
    requires
        at <= end <= text.len(),
    ensures
        b == needle@.is_prefix_of(text@.subrange(at as int, end as int)),
{
    if needle.len() > end - at {
        return false;
    }
    let ghost rest = text@.subrange(at as int, end as int);
    let mut i: usize = 0;
    while i < needle.len()
        invariant
            i <= needle.len() <= end - at,
            at <= end <= text.len(),
            rest == text@.subrange(at as int, end as int),
            forall|j: int| 0 <= j < i ==> needle[j] == rest[j],
        decreases needle.len() - i,
    {
        if needle[i] != text[at + i] {
            proof {
                assert(rest.subrange(0, needle.len() as int)[i as int] == rest[i as int]);
            }
            return false;
        }
        i = i + 1;
    }
    proof {
        assert(needle@ =~= rest.subrange(0, needle.len() as int));
    }
    true
}

/// Where the first `needle` of `text[start..end]` stands, or `end` where
/// there is none.
fn find_text_at(text: &Vec<char>, start: usize, end: usize, needle: &Vec<char>) -> (at: usize)
    requires
        start <= end <= text.len(),
    ensures
        start <= at <= end,
        text@.subrange(start as int, at as int) == before_text(
            text@.subrange(start as int, end as int),
            needle@,
        ),
{
    let ghost s = text@.subrange(start as int, end as int);
    let mut at: usize = start;
    while at < end
        invariant
            start <= at <= end <= text.len(),
            s == text@.subrange(start as int, end as int),
            forall|i: int| 0 <= i < at - start ==> !needle@.is_prefix_of(#[trigger] s.skip(i)),
        decreases end - at,
    {
        proof {
            assert(s.skip(at - start) =~= text@.subrange(at as int, end as int));
        }
        if stands_at(text, at, end, needle) {
            proof {
                lemma_before_text(s, needle@, at - start);
                assert(s.take(at - start) =~= text@.subrange(start as int, at as int));
            }
            return at;
        }
        at = at + 1;
    }
    proof {
        lemma_before_text(s, needle@, end - start);
        assert(s.take(end - start) =~= text@.subrange(start as int, end as int));
    }
    end
}

/// Whether text follows no line break of `text[start..end]`.
fn no_text_after_breaks(text: &Vec<char>, start: usize, end: usize) -> (b: bool)
    requires
        start <= end <= text.len(),
    ensures
        b == forall|i: int| !text_after_break(text@.subrange(start as int, end as int), i),
{
    let ghost s = text@.subrange(start as int, end as int);
    let mut at: usize = start;
    while end - at > 1
        invariant
            start <= at <= end <= text.len(),
            s == text@.subrange(start as int, end as int),
            forall|i: int| i < at - start ==> !text_after_break(s, i),
        decreases end - at,
    {
        if text[at] == '\n' && text[at + 1] != '\n' && text[at + 1] != '#' {
            proof {
                assert(text_after_break(s, at - start));
            }
            return false;
        }
        at = at + 1;
    }
    true
}

/// Where the comments at the end of `text[start..end]` begin.
fn comments_start_at(text: &Vec<char>, start: usize, end: usize) -> (at: usize)
    requires
        start <= end <= text.len(),
    ensures
        start <= at <= end,
        at - start == comments_start(text@.subrange(start as int, end as int)),
{
    let ghost s = text@.subrange(start as int, end as int);
    if start == end || text[end - 1] == '\n' {
        proof {
            lemma_comments_start(s, 0, s.len());
        }
        return end;
    }
    let mut clear: usize = end - 1;
    while clear > start && !(text[clear - 1] == '\n' && text[clear] != '\n' && text[clear] != '#')
        invariant
            start <= clear < end <= text.len(),
            s == text@.subrange(start as int, end as int),
            forall|i: int| clear - start <= i ==> !text_after_break(s, i),
        decreases clear,
    {
        clear = clear - 1;
    }
    let at = find_at(text, clear, end, '\n');
    proof {
        let tail = text@.subrange(clear as int, end as int);
        lemma_index_of(tail, '\n');
        let p = at - start;
        assert forall|q: int| 0 <= q < p implies !comments_from(s, q) by {
            if q < clear - start {
                assert(text_after_break(s, clear - start - 1));
            } else {
                assert(s[q] == tail[q - (clear - start)]);
            }
        }
        if at < end {
            assert(s[p] == tail[at - clear]);
        }
        assert(comments_from(s, p));
        lemma_comments_start(s, 0, p as nat);
    }
    at
}

/// The message proper of the commit file `file`: the file without the
/// scissors line and what follows it, without the comment lines at its
/// end, and without white space around it; nothing where the file is blank
/// or holds comments alone.
pub fn trim_commit_file(file: &str) -> (message: &str)
    ensures
        message@ == commit_message(file@),
{
    let text = chars_of(file);
    let len = text.len();
    let whole_end = trim_end_at(&text, 0, len);
    let whole_start = trim_start_at(&text, 0, whole_end);
    let ghost whole = text@.subrange(whole_start as int, whole_end as int);
    proof {
        assert(text@.subrange(0, len as int) =~= file@);
        assert(text@.subrange(0, whole_end as int) =~= file@.take(whole_end as int));
        assert(trim(file@) =~= whole);
    }
    if whole_start == whole_end {
        return file.substring_char(0, 0);
    }
    if text[whole_start] == '#' && no_text_after_breaks(&text, whole_start, whole_end) {
        return file.substring_char(0, 0);
    }
    let marker = chars_of("# ------------------------ >8 ------------------------");
    let cut = find_text_at(&text, whole_start, whole_end, &marker);
    let kept_end = trim_end_at(&text, whole_start, cut);
    let kept_start = trim_start_at(&text, whole_start, kept_end);
    let ghost kept = text@.subrange(kept_start as int, kept_end as int);
    proof {
        let before = text@.subrange(whole_start as int, cut as int);
        assert(before == before_text(whole, cut_marker()));
        assert(text@.subrange(whole_start as int, kept_end as int) =~= before.take(
            kept_end - whole_start,
        ));
        assert(trim(before) =~= kept);
    }
    let comments = comments_start_at(&text, kept_start, kept_end);
    proof {
        assert(kept.take(comments - kept_start) =~= file@.subrange(
            kept_start as int,
            comments as int,
        ));
    }
    file.substring_char(kept_start, comments)
}

} // verus!
