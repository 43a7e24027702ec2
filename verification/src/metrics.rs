//! The three counts, as mathematical functions of a text and as code.

use crate::whitespace::{is_whitespace, separates_words};
use vstd::prelude::*;
use vstd::string::StrSliceExecFns;
use vstd::utf8::encode_utf8;

verus! {

/// The character that ends a line.
pub open spec fn line_end() -> char {
    '\n'
}

/// The number of characters (Unicode scalar values) of `s`.
pub open spec fn char_count(s: Seq<char>) -> nat {
    s.len()
}

/// A word begins at position `i`: the character there is no whitespace, and
/// it stands first in the text or right behind whitespace.
pub open spec fn begins_word(s: Seq<char>, i: int) -> bool {
    &&& 0 <= i < s.len()
    &&& !is_whitespace(s[i])
    &&& (i == 0 || is_whitespace(s[i - 1]))
}

/// The number of positions below `n` at which a word begins.
pub open spec fn words_before(s: Seq<char>, n: int) -> nat
    decreases n,
{
    if n <= 0 {
        0
    } else {
        words_before(s, n - 1) + if begins_word(s, n - 1) {
            1nat
        } else {
            0nat
        }
    }
}

/// The number of words of `s`: its maximal runs of characters that are no
/// whitespace.
pub open spec fn word_count(s: Seq<char>) -> nat {
    words_before(s, s.len() as int)
}

/// The number of positions below `n` that hold a line end.
pub open spec fn line_ends_before(s: Seq<char>, n: int) -> nat
    decreases n,
{
    if n <= 0 {
        0
    } else {
        line_ends_before(s, n - 1) + if s[n - 1] == line_end() {
            1nat
        } else {
            0nat
        }
    }
}

/// The text goes on behind its last line end: it is not empty and does not
/// stop at a line end.
pub open spec fn has_open_line(s: Seq<char>) -> bool {
    s.len() > 0 && s.last() != line_end()
}

/// The number of lines of `s`: one for each line end, and one more for what
/// stands behind the last of them.
pub open spec fn line_count(s: Seq<char>) -> nat {
    line_ends_before(s, s.len() as int) + if has_open_line(s) {
        1nat
    } else {
        0nat
    }
}

/// Every character of `s` is whitespace.
pub open spec fn all_whitespace(s: Seq<char>) -> bool {
    forall|i: int| 0 <= i < s.len() ==> is_whitespace(#[trigger] s[i])
}

/// No character of `s` is whitespace.
pub open spec fn no_whitespace(s: Seq<char>) -> bool {
    forall|i: int| 0 <= i < s.len() ==> !is_whitespace(#[trigger] s[i])
}

/// Where `a` is followed by `b`, the last word of `a` and the first word of
/// `b` are one word: `a` stops and `b` starts with a character that is no
/// whitespace.
pub open spec fn joins(a: Seq<char>, b: Seq<char>) -> bool {
    &&& a.len() > 0
    &&& b.len() > 0
    &&& !is_whitespace(a.last())
    &&& !is_whitespace(b[0])
}

/// Below the end of `a`, the words of `a + b` begin where those of `a` do.
proof fn lemma_words_before_prefix(a: Seq<char>, b: Seq<char>, n: int)
    requires
        0 <= n <= a.len(),
    ensures
        words_before(a + b, n) == words_before(a, n),
    decreases n,
{
    if n > 0 {
        lemma_words_before_prefix(a, b, n - 1);
        assert(begins_word(a + b, n - 1) == begins_word(a, n - 1));
    }
}

/// Behind the end of `a`, the words of `a + b` begin where those of `b` do,
/// but for the first position of `b` where the two parts join.
proof fn lemma_words_before_suffix(a: Seq<char>, b: Seq<char>, n: int)
    requires
        0 <= n <= b.len(),
    ensures
        words_before(a + b, a.len() + n) + (if n > 0 && joins(a, b) {
            1nat
        } else {
            0nat
        }) == words_before(a, a.len() as int) + words_before(b, n),
    decreases n,
{
    if n == 0 {
        lemma_words_before_prefix(a, b, a.len() as int);
    } else {
        lemma_words_before_suffix(a, b, n - 1);
        let i = a.len() + n - 1;
        assert((a + b)[i] == b[n - 1]);
        if n == 1 {
            if a.len() > 0 {
                assert((a + b)[i - 1] == a.last());
            }
        } else {
            assert((a + b)[i - 1] == b[n - 2]);
        }
    }
}

/// The words of a text in two parts are the words of the parts, less one
/// where the parts join in a word.
pub proof fn lemma_word_count_concat(a: Seq<char>, b: Seq<char>)
    ensures
        word_count(a + b) + (if joins(a, b) {
            1nat
        } else {
            0nat
        }) == word_count(a) + word_count(b),
{
    lemma_words_before_suffix(a, b, b.len() as int);
}

/// No word begins in whitespace.
pub proof fn lemma_whitespace_has_no_word(gap: Seq<char>)
    requires
        all_whitespace(gap),
    ensures
        word_count(gap) == 0,
{
    lemma_no_word_below(gap, gap.len() as int);
}

proof fn lemma_no_word_below(gap: Seq<char>, n: int)
    requires
        all_whitespace(gap),
        0 <= n <= gap.len(),
    ensures
        words_before(gap, n) == 0,
    decreases n,
{
    if n > 0 {
        lemma_no_word_below(gap, n - 1);
    }
}

/// A run of characters without whitespace is one word.
pub proof fn lemma_token_is_one_word(token: Seq<char>)
    requires
        token.len() > 0,
        no_whitespace(token),
    ensures
        word_count(token) == 1,
{
    lemma_one_word_below(token, token.len() as int);
}

proof fn lemma_one_word_below(token: Seq<char>, n: int)
    requires
        no_whitespace(token),
        1 <= n <= token.len(),
    ensures
        words_before(token, n) == 1,
    decreases n,
{
    if n > 1 {
        lemma_one_word_below(token, n - 1);
    } else {
        assert(words_before(token, 0) == 0);
        assert(begins_word(token, 0));
    }
}

/// Whitespace before or behind a text adds no word.
pub proof fn lemma_outer_whitespace_ignored(gap: Seq<char>, s: Seq<char>)
    requires
        all_whitespace(gap),
    ensures
        word_count(gap + s) == word_count(s),
        word_count(s + gap) == word_count(s),
{
    lemma_whitespace_has_no_word(gap);
    lemma_word_count_concat(gap, s);
    lemma_word_count_concat(s, gap);
}

/// How much whitespace parts two pieces of a text does not matter to the
/// number of words, as long as there is some.
pub proof fn lemma_whitespace_run_length_ignored(
    a: Seq<char>,
    gap: Seq<char>,
    other_gap: Seq<char>,
    b: Seq<char>,
)
    requires
        gap.len() > 0,
        other_gap.len() > 0,
        all_whitespace(gap),
        all_whitespace(other_gap),
    ensures
        word_count(a + gap + b) == word_count(a + other_gap + b),
        word_count(a + gap + b) == word_count(a) + word_count(b),
{
    lemma_parted_by_whitespace(a, gap, b);
    lemma_parted_by_whitespace(a, other_gap, b);
}

proof fn lemma_parted_by_whitespace(a: Seq<char>, gap: Seq<char>, b: Seq<char>)
    requires
        gap.len() > 0,
        all_whitespace(gap),
    ensures
        word_count(a + gap + b) == word_count(a) + word_count(b),
{
    lemma_outer_whitespace_ignored(gap, a);
    lemma_word_count_concat(a + gap, b);
    assert((a + gap).last() == gap.last());
}

/// A character that is no whitespace, put next to another such character,
/// belongs to that character's word: the number of words stays.
pub proof fn lemma_attached_char_joins_word(a: Seq<char>, c: char, b: Seq<char>)
    requires
        !is_whitespace(c),
        (a.len() > 0 && !is_whitespace(a.last())) || (b.len() > 0 && !is_whitespace(b[0])),
    ensures
        word_count(a + seq![c] + b) == word_count(a + b),
{
    let mid = seq![c];
    lemma_token_is_one_word(mid);
    lemma_word_count_concat(a, mid);
    lemma_word_count_concat(a + mid, b);
    lemma_word_count_concat(a, b);
    assert((a + mid).last() == c);
}

/// Below the end of `a`, the line ends of `a + b` are those of `a`; behind
/// it, those of `b`.
proof fn lemma_line_ends_before_concat(a: Seq<char>, b: Seq<char>, n: int)
    requires
        0 <= n <= a.len() + b.len(),
    ensures
        n <= a.len() ==> line_ends_before(a + b, n) == line_ends_before(a, n),
        n >= a.len() ==> line_ends_before(a + b, n) == line_ends_before(a, a.len() as int)
            + line_ends_before(b, n - a.len()),
    decreases n,
{
    if n > 0 {
        lemma_line_ends_before_concat(a, b, n - 1);
        if n <= a.len() {
            assert((a + b)[n - 1] == a[n - 1]);
        } else {
            assert((a + b)[n - 1] == b[n - 1 - a.len()]);
        }
    }
}

/// The lines of a text in two parts are the lines of the parts, less one
/// where the second part goes on with the open line of the first.
pub proof fn lemma_line_count_concat(a: Seq<char>, b: Seq<char>)
    ensures
        line_count(a + b) + (if has_open_line(a) && b.len() > 0 {
            1nat
        } else {
            0nat
        }) == line_count(a) + line_count(b),
{
    lemma_line_ends_before_concat(a, b, (a.len() + b.len()) as int);
    if b.len() > 0 {
        assert((a + b).last() == b.last());
    } else {
        assert(a + b == a);
    }
}

/// A line end behind an open line closes it and adds no line; behind
/// anything else it is a line of its own.
pub proof fn lemma_trailing_line_end(s: Seq<char>)
    ensures
        has_open_line(s) ==> line_count(s + seq![line_end()]) == line_count(s),
        !has_open_line(s) ==> line_count(s + seq![line_end()]) == line_count(s) + 1,
        line_count(s + seq![line_end()]) == line_ends_before(s, s.len() as int) + 1,
{
    let tail = seq![line_end()];
    lemma_line_count_concat(s, tail);
    assert(line_ends_before(tail, 0) == 0);
    assert(line_ends_before(tail, 1) == 1);
}

/// No count exceeds the number of characters, and two words need a
/// character between them.
pub proof fn lemma_counts_within_chars(s: Seq<char>)
    ensures
        word_count(s) <= char_count(s),
        2 * word_count(s) <= char_count(s) + 1,
        line_count(s) <= char_count(s),
{
    lemma_words_spaced(s, s.len() as int);
    lemma_line_ends_spaced(s, s.len() as int);
}

proof fn lemma_words_spaced(s: Seq<char>, n: int)
    requires
        0 <= n <= s.len(),
    ensures
        2 * words_before(s, n) <= n + 1,
        n > 0 && is_whitespace(s[n - 1]) ==> 2 * words_before(s, n) <= n,
    decreases n,
{
    if n > 0 {
        lemma_words_spaced(s, n - 1);
    }
}

proof fn lemma_line_ends_spaced(s: Seq<char>, n: int)
    requires
        0 <= n <= s.len(),
    ensures
        line_ends_before(s, n) <= n,
        n > 0 && s[n - 1] != line_end() ==> line_ends_before(s, n) < n,
    decreases n,
{
    if n > 0 {
        lemma_line_ends_spaced(s, n - 1);
    }
}

/// A text has no more characters than its encoding has bytes.
pub proof fn lemma_chars_within_bytes(s: Seq<char>)
    ensures
        s.len() <= encode_utf8(s).len(),
    decreases s.len(),
{
    if s.len() > 0 {
        lemma_chars_within_bytes(s.drop_first());
    }
}

/// Counts the characters of `text`.
pub fn count_char(text: &str) -> (n: usize)
    ensures
        n == char_count(text@),
{
    text.unicode_len()
}

/// Counts the words of `text`.
pub fn count_words(text: &str) -> (n: usize)
    ensures
        n == word_count(text@),
{
    let bytes: usize = text.as_bytes().len();
    proof {
        lemma_chars_within_bytes(text@);
    }
    let mut count: usize = 0;
    let mut in_word: bool = false;
    for c in it: text.chars()
        invariant
            it.seq() == text@,
            text@.len() <= bytes,
            count == words_before(text@, it.index()),
            count <= it.index(),
            in_word == (it.index() > 0 && !is_whitespace(text@[it.index() - 1])),
    {
        let blank: bool = separates_words(c);
        if !blank && !in_word {
            count = count + 1;
        }
        in_word = !blank;
    }
    count
}

/// Counts the lines of `text`.
pub fn count_lines(text: &str) -> (n: usize)
    ensures
        n == line_count(text@),
{
    let bytes: usize = text.as_bytes().len();
    proof {
        lemma_chars_within_bytes(text@);
    }
    let mut ends: usize = 0;
    let mut open: bool = false;
    for c in it: text.chars()
        invariant
            it.seq() == text@,
            text@.len() <= bytes,
            ends == line_ends_before(text@, it.index()),
            ends <= it.index(),
            open == (it.index() > 0 && text@[it.index() - 1] != line_end()),
            open ==> ends < it.index(),
    {
        if c == '\n' {
            ends = ends + 1;
            open = false;
        } else {
            open = true;
        }
    }
    if open {
        ends + 1
    } else {
        ends
    }
}

} // verus!
