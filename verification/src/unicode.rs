//! What Unicode's tables decide of a character or a text: case, word
//! characters, grapheme clusters, caseless equality. The tables are not
//! written out here. Each property has a name, and the function that looks
//! it up is believed to return what the name stands for.

use vstd::prelude::*;

verus! {

/// Whether `c` has Unicode's `Lowercase` property.
pub uninterp spec fn unicode_lowercase(c: char) -> bool;

/// Whether `c` is a word character by Unicode's rules for regular
/// expressions: alphabetic, a mark, a decimal number, connector punctuation
/// or a join control.
pub uninterp spec fn unicode_word(c: char) -> bool;

/// How many grapheme clusters, the characters that a reader perceives,
/// `text` is made of.
pub uninterp spec fn grapheme_count(text: Seq<char>) -> usize;

/// Whether `left` and `right` are equal once Unicode's case folding is
/// applied to both.
pub uninterp spec fn caseless_eq(left: Seq<char>, right: Seq<char>) -> bool;

/// `char::is_lowercase` tells whether the character has the `Lowercase`
/// property.
pub assume_specification[ char::is_lowercase ](c: char) -> (b: bool)
    ensures
        b == unicode_lowercase(c),
;

/// `regex_syntax::is_word_character` tells whether the character is a
/// Unicode word character. It looks the character up in a table and panics
/// only where the crate was built without that table, which is not the case
/// with the features that this library builds it with.
pub assume_specification[ regex_syntax::is_word_character ](c: char) -> (b: bool)
    ensures
        b == unicode_word(c),
;

/// Counts the extended grapheme clusters of `text` with
/// `unicode_segmentation`'s `graphemes` iterator.
#[verifier::external_body]
pub(crate) fn count_graphemes(text: &str) -> (count: usize)
    ensures
        count == grapheme_count(text@),
{
    unicode_segmentation::UnicodeSegmentation::graphemes(text, true).count()
}

/// Compares two texts with `unicase::eq`, which folds the case of both and
/// compares what is left.
#[verifier::external_body]
pub(crate) fn eq_caseless(left: &str, right: &str) -> (equal: bool)
    ensures
        equal == caseless_eq(left@, right@),
{
    unicase::eq(left, right)
}

/// Whether `c` is a lower-case letter: `a` to `z`, or beyond ASCII a
/// character with the `Lowercase` property.
pub open spec fn lowercase(c: char) -> bool {
    if c <= '\u{7f}' {
        'a' <= c && c <= 'z'
    } else {
        unicode_lowercase(c)
    }
}

/// Whether `c` is a word character: a letter, a digit or `_` in ASCII, or
/// beyond ASCII a Unicode word character.
pub open spec fn word_char(c: char) -> bool {
    if c <= '\u{7f}' {
        ('a' <= c && c <= 'z') || ('A' <= c && c <= 'Z') || ('0' <= c && c <= '9') || c == '_'
    } else {
        unicode_word(c)
    }
}

/// Whether `c` is a lower-case letter.
pub fn is_lower(c: char) -> (b: bool)
    ensures
        b == lowercase(c),
{
    if c <= '\u{7f}' {
        'a' <= c && c <= 'z'
    } else {
        c.is_lowercase()
    }
}

/// Whether `c` is a word character.
pub fn is_word_char(c: char) -> (b: bool)
    ensures
        b == word_char(c),
{
    if c <= '\u{7f}' {
        ('a' <= c && c <= 'z') || ('A' <= c && c <= 'Z') || ('0' <= c && c <= '9') || c == '_'
    } else {
        regex_syntax::is_word_character(c)
    }
}

} // verus!
