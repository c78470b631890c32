//! The calculator: it counts what a text holds and scores it.

use vstd::prelude::*;
use vstd::string::StringSliceAdditionalSpecFns;
use vstd::utf8::encode_utf8;
use crate::classes::{ends_sentence, is_ascii_letter, is_letter, is_sentence_end, word_character};
use crate::counts::{
    count_runs, letter_count, sentence_count, word_count, word_marks, TextCounts,
};
use crate::score::{gulpease, index_fraction, Score};

verus! {

/// The Gulpease index of a text: the index of its three counts.
pub open spec fn text_score(text: Seq<char>) -> real {
    gulpease(sentence_count(text), word_count(text), letter_count(text))
}

/// The fraction that a `Score` holds for a text: the one kept for its three
/// counts.
pub open spec fn text_fraction(text: Seq<char>) -> (nat, nat) {
    index_fraction(sentence_count(text), word_count(text), letter_count(text))
}

/// A text has no more characters than its UTF-8 encoding has bytes.
proof fn lemma_chars_within_bytes(chars: Seq<char>)
    ensures
        chars.len() <= encode_utf8(chars).len(),
    decreases chars.len(),
{
    if chars.len() > 0 {
        lemma_chars_within_bytes(chars.drop_first());
    }
}

/// The number of characters of `text` fits in a `usize`, because the bytes
/// that hold them do.
fn note_length_fits(text: &str)
    ensures
        text@.len() <= usize::MAX,
{
    let bytes = text.as_bytes();
    let _: usize = bytes.len();
    proof {
        lemma_chars_within_bytes(text@);
    }
}

/// The Gulpease calculator. It holds no state: every call works on its
/// argument alone.
#[derive(Clone, Copy, Debug)]
pub struct GulpeaseIndex;

impl GulpeaseIndex {
    /// A calculator.
    pub fn new() -> (index: Self)
        ensures
            index == GulpeaseIndex,
    {
        GulpeaseIndex
    }

    /// The Gulpease index of `text`, as an exact fraction between 0 and 100.
    ///
    /// It is 0 for a text without a word or without a sentence, and else
    /// `89 - 10 * letters / words + 300 * sentences / words`, clamped to the
    /// interval from 0 to 100.
    pub fn calculate(&self, text: &str) -> (score: Score)
        ensures
            score.value() == text_score(text@),
            score.fraction() == text_fraction(text@),
            0 as real <= score.value() <= 100 as real,
    {
        let counts = self.count(text);
        Score::from_counts(counts.sentences, counts.words, counts.letters)
    }

    /// The three counts of `text`.
    pub fn count(&self, text: &str) -> (counts: TextCounts)
        ensures
            counts.triple() == TextCounts::of(text@),
    {
        TextCounts {
            sentences: self.count_sentences(text),
            words: self.count_words(text),
            letters: self.count_letters(text),
        }
    }

    /// Counts the characters of `text` that end a sentence.
    pub fn count_sentences(&self, text: &str) -> (n: usize)
        ensures
            n == sentence_count(text@),
    {
        note_length_fits(text);
        let mut n: usize = 0;
        for c in it: text.chars()
            invariant
                it.seq() == text@,
                text@.len() <= usize::MAX,
                n == sentence_count(text@.take(it.index())),
                n <= it.index(),
        {
            proof {
                text@.lemma_take_succ_push(it.index());
                text@.take(it.index()).lemma_filter_len_push(|c: char| is_sentence_end(c), c);
            }
            if ends_sentence(c) {
                n = n + 1;
            }
        }
        proof {
            text@.lemma_take_len();
        }
        n
    }

    /// Counts the words of `text`: the runs of its word characters.
    pub fn count_words(&self, text: &str) -> (n: usize)
        ensures
            n == word_count(text@),
    {
        let mut marks: Vec<bool> = Vec::new();
        for c in it: text.chars()
            invariant
                it.seq() == text@,
                marks@ == word_marks(text@).take(it.index()),
        {
            marks.push(word_character(c));
        }
        assert(marks@ == word_marks(text@));
        count_runs(marks.as_slice())
    }

    /// Counts the characters of `text` that are ASCII letters.
    pub fn count_letters(&self, text: &str) -> (n: usize)
        ensures
            n == letter_count(text@),
    {
        note_length_fits(text);
        let mut n: usize = 0;
        for c in it: text.chars()
            invariant
                it.seq() == text@,
                text@.len() <= usize::MAX,
                n == letter_count(text@.take(it.index())),
                n <= it.index(),
        {
            proof {
                text@.lemma_take_succ_push(it.index());
                text@.take(it.index()).lemma_filter_len_push(|c: char| is_ascii_letter(c), c);
            }
            if is_letter(c) {
                n = n + 1;
            }
        }
        proof {
            text@.lemma_take_len();
        }
        n
    }
}

} // verus!
