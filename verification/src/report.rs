//! The report: the three counts of one text, fixed once it is made.

use crate::metrics::{char_count, count_char, count_lines, count_words, line_count, word_count};
use vstd::prelude::*;

verus! {

/// What a report says, as numbers without a machine bound.
pub ghost struct Counts {
    pub chars: nat,
    pub words: nat,
    pub lines: nat,
}

/// The counts of the text `s`.
pub open spec fn counts_of(s: Seq<char>) -> Counts {
    Counts { chars: char_count(s), words: word_count(s), lines: line_count(s) }
}

/// The character, word and line counts of one text. The fields are set when
/// the report is made and can only be read afterwards.
#[derive(Debug, Clone, Copy, PartialEq, Eq, Structural)]
pub struct Report {
    char_count: usize,
    word_count: usize,
    line_count: usize,
}

impl View for Report {
    type V = Counts;

    closed spec fn view(&self) -> Counts {
        Counts {
            chars: self.char_count as nat,
            words: self.word_count as nat,
            lines: self.line_count as nat,
        }
    }
}

impl Report {
    /// A report that holds the three given counts.
    pub fn new(char_count: usize, word_count: usize, line_count: usize) -> (r: Report)
        ensures
            r@ == (Counts {
                chars: char_count as nat,
                words: word_count as nat,
                lines: line_count as nat,
            }),
    {
        Report { char_count, word_count, line_count }
    }

    /// The number of characters.
    pub fn char_count(&self) -> (n: usize)
        ensures
            n == self@.chars,
    {
        self.char_count
    }

    /// The number of words.
    pub fn word_count(&self) -> (n: usize)
        ensures
            n == self@.words,
    {
        self.word_count
    }

    /// The number of lines.
    pub fn line_count(&self) -> (n: usize)
        ensures
            n == self@.lines,
    {
        self.line_count
    }

    /// Two reports are equal exactly when their three counts are.
    pub proof fn lemma_equal_by_counts(self, other: Report)
        ensures
            (self == other) <==> (self@ == other@),
    {
    }
}

/// Measures `text`: counts its characters, words and lines, each once.
pub fn analyze(text: &str) -> (r: Report)
    ensures
        r@ == counts_of(text@),
{
    Report {
        char_count: count_char(text),
        word_count: count_words(text),
        line_count: count_lines(text),
    }
}

/// Measuring is repeatable: whatever two measurements of one text return is
/// the same report.
pub proof fn lemma_analyze_repeatable(text: Seq<char>, first: Report, second: Report)
    requires
        first@ == counts_of(text),
        second@ == counts_of(text),
    ensures
        first == second,
{
    first.lemma_equal_by_counts(second);
}

} // verus!
