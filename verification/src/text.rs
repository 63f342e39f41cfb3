//! Character classes and the pieces of a message's text that the rules read.
//!
//! Every function here works on characters, never on bytes: an index is the
//! position of a character in the text.

use vstd::prelude::*;

verus! {

/// White space: the characters that carry Unicode's `White_Space` property.
pub open spec fn whitespace(c: char) -> bool {
    ||| ('\u{9}' <= c && c <= '\u{d}')
    ||| c == ' '
    ||| c == '\u{85}'
    ||| c == '\u{a0}'
    ||| c == '\u{1680}'
    ||| ('\u{2000}' <= c && c <= '\u{200a}')
    ||| c == '\u{2028}'
    ||| c == '\u{2029}'
    ||| c == '\u{202f}'
    ||| c == '\u{205f}'
    ||| c == '\u{3000}'
}

/// How many characters of `s` are left once the white space at its end is removed.
pub open spec fn trim_end_len(s: Seq<char>) -> nat
    decreases s.len(),
{
    if s.len() > 0 && whitespace(s.last()) {
        trim_end_len(s.drop_last())
    } else {
        s.len()
    }
}

/// How many characters of white space `s` begins with.
pub open spec fn trim_start_len(s: Seq<char>) -> nat
    decreases s.len(),
{
    if s.len() > 0 && whitespace(s[0]) {
        1 + trim_start_len(s.skip(1))
    } else {
        0
    }
}

/// `s` without the white space at its end.
pub open spec fn trim_end(s: Seq<char>) -> Seq<char> {
    s.take(trim_end_len(s) as int)
}

/// `s` without the white space at its start.
pub open spec fn trim_start(s: Seq<char>) -> Seq<char> {
    s.skip(trim_start_len(s) as int)
}

/// `s` without the white space at either end.
pub open spec fn trim(s: Seq<char>) -> Seq<char> {
    trim_start(trim_end(s))
}

/// Whether `s` holds nothing but white space.
pub open spec fn blank(s: Seq<char>) -> bool {
    forall|i: int| 0 <= i < s.len() ==> whitespace(#[trigger] s[i])
}

/// The position of the first `c` in `s`, or the length of `s` where it holds none.
pub open spec fn index_of(s: Seq<char>, c: char) -> nat
    decreases s.len(),
{
    if s.len() > 0 && s[0] != c {
        1 + index_of(s.skip(1), c)
    } else {
        0
    }
}

/// The position of the last `c` in `s`, if `s` holds one.
pub open spec fn last_index_of(s: Seq<char>, c: char) -> Option<nat>
    decreases s.len(),
{
    if s.len() == 0 {
        None
    } else if s.last() == c {
        Some((s.len() - 1) as nat)
    } else {
        last_index_of(s.drop_last(), c)
    }
}

/// How many characters stand at the start of `s` before its first white space.
pub open spec fn word_len(s: Seq<char>) -> nat
    decreases s.len(),
{
    if s.len() > 0 && !whitespace(s[0]) {
        1 + word_len(s.skip(1))
    } else {
        0
    }
}

/// The first line of `s`: what stands before its first line feed.
pub open spec fn first_line(s: Seq<char>) -> Seq<char> {
    s.take(index_of(s, '\n') as int)
}

/// The first word of `s`: the first run of characters that are not white
/// space. It is empty exactly where `s` is blank.
pub open spec fn first_word(s: Seq<char>) -> Seq<char> {
    trim_start(s).take(word_len(trim_start(s)) as int)
}

/// What stands before the last space of `s`; all of `s` where it holds no
/// space.
pub open spec fn before_last_space(s: Seq<char>) -> Seq<char> {
    match last_index_of(s, ' ') {
        Some(at) => s.take(at as int),
        None => s,
    }
}

/// The text of an optional string slice.
pub open spec fn opt_text(s: Option<&str>) -> Option<Seq<char>> {
    match s {
        Some(s) => Some(s@),
        None => None,
    }
}

/// The texts that a list of strings holds.
pub open spec fn texts(list: Seq<String>) -> Seq<Seq<char>> {
    Seq::new(list.len(), |i: int| list[i]@)
}

/// The texts that a list of string slices holds.
pub open spec fn slice_texts(list: Seq<&str>) -> Seq<Seq<char>> {
    Seq::new(list.len(), |i: int| list[i]@)
}

/// What is left of `s` without the white space at its end is the part that
/// ends with its last character that is no white space.
pub proof fn lemma_trim_end_len(s: Seq<char>)
    ensures
        trim_end_len(s) <= s.len(),
        trim_end_len(s) > 0 ==> !whitespace(s[trim_end_len(s) - 1]),
        forall|i: int| trim_end_len(s) <= i < s.len() ==> whitespace(#[trigger] s[i]),
    decreases s.len(),
{
    if s.len() > 0 && whitespace(s.last()) {
        let t = s.drop_last();
        lemma_trim_end_len(t);
        assert forall|i: int| trim_end_len(s) <= i < s.len() implies whitespace(
            #[trigger] s[i],
        ) by {
            if i < t.len() {
                assert(s[i] == t[i]);
            }
        }
    }
}

/// The white space at the start of `s` ends before its first character
/// that is no white space.
pub proof fn lemma_trim_start_len(s: Seq<char>)
    ensures
        trim_start_len(s) <= s.len(),
        trim_start_len(s) < s.len() ==> !whitespace(s[trim_start_len(s) as int]),
        forall|i: int| 0 <= i < trim_start_len(s) ==> whitespace(#[trigger] s[i]),
    decreases s.len(),
{
    if s.len() > 0 && whitespace(s[0]) {
        lemma_trim_start_len(s.skip(1));
        assert forall|i: int| 0 <= i < trim_start_len(s) implies whitespace(#[trigger] s[i]) by {
            if i > 0 {
                assert(s[i] == s.skip(1)[i - 1]);
            }
        }
    }
}

/// `index_of` gives the place of the first `c`: no `c` stands before it.
pub proof fn lemma_index_of(s: Seq<char>, c: char)
    ensures
        index_of(s, c) <= s.len(),
        index_of(s, c) < s.len() ==> s[index_of(s, c) as int] == c,
        forall|i: int| 0 <= i < index_of(s, c) ==> #[trigger] s[i] != c,
    decreases s.len(),
{
    if s.len() > 0 && s[0] != c {
        lemma_index_of(s.skip(1), c);
        assert forall|i: int| 0 <= i < index_of(s, c) implies #[trigger] s[i] != c by {
            if i > 0 {
                assert(s[i] == s.skip(1)[i - 1]);
            }
        }
    }
}

/// `last_index_of` gives the place of the last `c`: no `c` stands behind
/// it, and there is none exactly where `s` holds no `c`.
pub proof fn lemma_last_index_of(s: Seq<char>, c: char)
    ensures
        match last_index_of(s, c) {
            Some(at) => at < s.len() && s[at as int] == c && forall|i: int|
                at < i < s.len() ==> #[trigger] s[i] != c,
            None => !s.contains(c),
        },
    decreases s.len(),
{
    if s.len() > 0 && s.last() != c {
        let t = s.drop_last();
        lemma_last_index_of(t, c);
        match last_index_of(t, c) {
            Some(at) => {
                assert(s[at as int] == t[at as int]);
                assert forall|i: int| at < i < s.len() implies #[trigger] s[i] != c by {
                    if i < t.len() {
                        assert(s[i] == t[i]);
                    }
                }
            },
            None => {
                if s.contains(c) {
                    let i = choose|i: int| 0 <= i < s.len() && s[i] == c;
                    assert(t[i] == c);
                }
            },
        }
    }
}

/// The word at the start of `s` ends before the first white space of `s`.
pub proof fn lemma_word_len(s: Seq<char>)
    ensures
        word_len(s) <= s.len(),
        word_len(s) < s.len() ==> whitespace(s[word_len(s) as int]),
        forall|i: int| 0 <= i < word_len(s) ==> !whitespace(#[trigger] s[i]),
    decreases s.len(),
{
    if s.len() > 0 && !whitespace(s[0]) {
        lemma_word_len(s.skip(1));
        assert forall|i: int| 0 <= i < word_len(s) implies !whitespace(#[trigger] s[i]) by {
            if i > 0 {
                assert(s[i] == s.skip(1)[i - 1]);
            }
        }
    }
}

/// The first word of a text holds no white space, and it is empty exactly
/// where the text is blank.
pub proof fn lemma_first_word(s: Seq<char>)
    ensures
        forall|i: int| 0 <= i < first_word(s).len() ==> !whitespace(#[trigger] first_word(s)[i]),
        first_word(s).len() == 0 <==> blank(s),
{
    lemma_trim_start_len(s);
    let rest = trim_start(s);
    lemma_word_len(rest);
    if blank(s) {
        if trim_start_len(s) < s.len() {
            assert(whitespace(s[trim_start_len(s) as int]));
        }
    } else {
        let i = choose|i: int| 0 <= i < s.len() && !whitespace(s[i]);
        assert(trim_start_len(s) <= i);
        assert(!whitespace(rest[0]));
    }
}

/// A text is blank exactly where trimming leaves nothing of it.
pub proof fn lemma_blank_trim(s: Seq<char>)
    ensures
        blank(s) <==> trim(s).len() == 0,
        blank(s) <==> trim_end_len(s) == 0,
{
    lemma_trim_end_len(s);
    lemma_trim_start_len(trim_end(s));
    let t = trim_end(s);
    if trim_end_len(s) > 0 {
        assert(!whitespace(s[trim_end_len(s) - 1]));
        assert(t.last() == s[trim_end_len(s) - 1]);
        if trim_start_len(t) == t.len() {
            assert(whitespace(t[t.len() - 1]));
        }
    }
}

/// Whether `c` is white space.
pub fn is_whitespace(c: char) -> (b: bool)
    ensures
        b == whitespace(c),
{
    ('\u{9}' <= c && c <= '\u{d}') || c == ' ' || c == '\u{85}' || c == '\u{a0}' || c
        == '\u{1680}' || ('\u{2000}' <= c && c <= '\u{200a}') || c == '\u{2028}' || c
        == '\u{2029}' || c == '\u{202f}' || c == '\u{205f}' || c == '\u{3000}'
}

/// The characters of `s`, in order.
pub fn chars_of(s: &str) -> (chars: Vec<char>)
    ensures
        chars@ == s@,
{
    let mut chars: Vec<char> = Vec::new();
    let mut it = s.chars();
    for c in iter: it
        invariant
            chars@ == iter.seq().take(iter.index@),
    {
        chars.push(c);
    }
    chars
}

/// Whether `left` and `right` hold the same text.
pub fn same_text(left: &str, right: &str) -> (same: bool)
    ensures
        same == (left@ == right@),
{
    let a = chars_of(left);
    let b = chars_of(right);
    if a.len() != b.len() {
        return false;
    }
    let mut i: usize = 0;
    while i < a.len()
        invariant
            i <= a.len() == b.len(),
            a@ == left@,
            b@ == right@,
            forall|j: int| 0 <= j < i ==> a[j] == b[j],
        decreases a.len() - i,
    {
        if a[i] != b[i] {
            proof {
                assert(left@[i as int] != right@[i as int]);
            }
            return false;
        }
        i = i + 1;
    }
    proof {
        assert(a@ =~= b@);
    }
    true
}

/// Where the white space at the end of `text[start..end]` begins.
pub fn trim_end_at(text: &Vec<char>, start: usize, end: usize) -> (at: usize)
    requires
        start <= end <= text.len(),
    ensures
        start <= at <= end,
        at - start == trim_end_len(text@.subrange(start as int, end as int)),
{
    let mut at: usize = end;
    while at > start && is_whitespace(text[at - 1])
        invariant
            start <= at <= end <= text.len(),
            trim_end_len(text@.subrange(start as int, at as int)) == trim_end_len(
                text@.subrange(start as int, end as int),
            ),
        decreases at,
    {
        assert(text@.subrange(start as int, at as int).drop_last() =~= text@.subrange(
            start as int,
            at - 1,
        ));
        at = at - 1;
    }
    at
}

/// Where the white space at the start of `text[start..end]` ends.
pub fn trim_start_at(text: &Vec<char>, start: usize, end: usize) -> (at: usize)
    requires
        start <= end <= text.len(),
    ensures
        start <= at <= end,
        at - start == trim_start_len(text@.subrange(start as int, end as int)),
{
    let mut at: usize = start;
    while at < end && is_whitespace(text[at])
        invariant
            start <= at <= end <= text.len(),
            trim_start_len(text@.subrange(start as int, end as int)) == (at - start)
                + trim_start_len(text@.subrange(at as int, end as int)),
        decreases end - at,
    {
        assert(text@.subrange(at as int, end as int).skip(1) =~= text@.subrange(
            at + 1,
            end as int,
        ));
        at = at + 1;
    }
    at
}

/// Where the first `c` of `text[start..end]` stands, or `end` where there is none.
pub fn find_at(text: &Vec<char>, start: usize, end: usize, c: char) -> (at: usize)
    requires
        start <= end <= text.len(),
    ensures
        start <= at <= end,
        at - start == index_of(text@.subrange(start as int, end as int), c),
{
    let mut at: usize = start;
    while at < end && text[at] != c
        invariant
            start <= at <= end <= text.len(),
            index_of(text@.subrange(start as int, end as int), c) == (at - start) + index_of(
                text@.subrange(at as int, end as int),
                c,
            ),
        decreases end - at,
    {
        assert(text@.subrange(at as int, end as int).skip(1) =~= text@.subrange(
            at + 1,
            end as int,
        ));
        at = at + 1;
    }
    at
}

/// Where the last `c` of `text[start..end]` stands, if there is one.
pub fn rfind_at(text: &Vec<char>, start: usize, end: usize, c: char) -> (found: Option<usize>)
    requires
        start <= end <= text.len(),
    ensures
        match found {
            Some(at) => start <= at < end && last_index_of(
                text@.subrange(start as int, end as int),
                c,
            ) == Some((at - start) as nat),
            None => last_index_of(text@.subrange(start as int, end as int), c) is None,
        },
{
    let mut at: usize = end;
    while at > start && text[at - 1] != c
        invariant
            start <= at <= end <= text.len(),
            last_index_of(text@.subrange(start as int, at as int), c) == last_index_of(
                text@.subrange(start as int, end as int),
                c,
            ),
        decreases at,
    {
        assert(text@.subrange(start as int, at as int).drop_last() =~= text@.subrange(
            start as int,
            at - 1,
        ));
        at = at - 1;
    }
    if at > start {
        Some(at - 1)
    } else {
        None
    }
}

/// Where the word that begins `text[start..end]` ends.
pub fn word_end_at(text: &Vec<char>, start: usize, end: usize) -> (at: usize)
    requires
        start <= end <= text.len(),
    ensures
        start <= at <= end,
        at - start == word_len(text@.subrange(start as int, end as int)),
{
    let mut at: usize = start;
    while at < end && !is_whitespace(text[at])
        invariant
            start <= at <= end <= text.len(),
            word_len(text@.subrange(start as int, end as int)) == (at - start) + word_len(
                text@.subrange(at as int, end as int),
            ),
        decreases end - at,
    {
        assert(text@.subrange(at as int, end as int).skip(1) =~= text@.subrange(
            at + 1,
            end as int,
        ));
        at = at + 1;
    }
    at
}

} // verus!
