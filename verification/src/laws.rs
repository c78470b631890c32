//! What holds of the index of every text.

use vstd::prelude::*;
use crate::classes::{is_sentence_end, is_word_char};
use crate::counts::{letter_count, runs_before, sentence_count, word_count, word_marks};
use crate::index::{text_fraction, text_score};
use crate::score::{fraction_value, lemma_fraction_is_index};

verus! {

/// The index of every text lies between 0 and 100.
pub proof fn lemma_text_score_in_range(text: Seq<char>)
    ensures
        0 as real <= text_score(text) <= 100 as real,
{
}

/// The fraction kept for a text stands for the index of that text.
pub proof fn lemma_text_fraction_is_score(text: Seq<char>)
    ensures
        fraction_value(text_fraction(text)) == text_score(text),
{
    lemma_fraction_is_index(sentence_count(text), word_count(text), letter_count(text));
}

/// A text in which no character ends a sentence has no sentence.
pub proof fn lemma_no_sentence_end_no_sentence(text: Seq<char>)
    requires
        forall|i: int| 0 <= i < text.len() ==> !is_sentence_end(#[trigger] text[i]),
    ensures
        sentence_count(text) == 0,
    decreases text.len(),
{
    reveal(Seq::filter);
    if text.len() > 0 {
        assert(!is_sentence_end(text.last()));
        lemma_no_sentence_end_no_sentence(text.drop_last());
    }
}

/// Among the first `n` marks no run starts if none of them is set.
proof fn lemma_no_mark_no_start(marks: Seq<bool>, n: int)
    requires
        n <= marks.len(),
        forall|i: int| 0 <= i < n ==> !#[trigger] marks[i],
    ensures
        runs_before(marks, n) == 0,
    decreases n,
{
    if n > 0 {
        assert(!marks[n - 1]);
        lemma_no_mark_no_start(marks, n - 1);
    }
}

/// A text in which no character is a word character has no word.
pub proof fn lemma_no_word_char_no_word(text: Seq<char>)
    requires
        forall|i: int| 0 <= i < text.len() ==> !is_word_char(#[trigger] text[i]),
    ensures
        word_count(text) == 0,
{
    lemma_no_mark_no_start(word_marks(text), text.len() as int);
}

/// The index of a text in which no character ends a sentence is 0, whatever
/// else the text holds.
pub proof fn lemma_no_sentence_end_scores_zero(text: Seq<char>)
    requires
        forall|i: int| 0 <= i < text.len() ==> !is_sentence_end(#[trigger] text[i]),
    ensures
        text_score(text) == 0 as real,
        text_fraction(text) == (0nat, 1nat),
{
    lemma_no_sentence_end_no_sentence(text);
}

/// The index of a text in which no character is a word character is 0,
/// however many sentence ends it holds.
pub proof fn lemma_no_word_char_scores_zero(text: Seq<char>)
    requires
        forall|i: int| 0 <= i < text.len() ==> !is_word_char(#[trigger] text[i]),
    ensures
        text_score(text) == 0 as real,
        text_fraction(text) == (0nat, 1nat),
{
    lemma_no_word_char_no_word(text);
}

/// The index of the empty text is 0.
pub proof fn lemma_empty_text_scores_zero()
    ensures
        text_score(Seq::<char>::empty()) == 0 as real,
        text_fraction(Seq::<char>::empty()) == (0nat, 1nat),
{
    lemma_no_sentence_end_scores_zero(Seq::<char>::empty());
}

} // verus!
