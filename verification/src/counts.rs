//! What the three counts of a text are: its sentences, its words and its
//! letters.

use vstd::prelude::*;
use crate::classes::{is_ascii_letter, is_sentence_end, is_word_char};

verus! {

/// The number of characters of `text` that end a sentence. Each one counts,
/// also where several stand side by side.
pub open spec fn sentence_count(text: Seq<char>) -> nat {
    text.filter(|c: char| is_sentence_end(c)).len()
}

/// The number of characters of `text` that are ASCII letters.
pub open spec fn letter_count(text: Seq<char>) -> nat {
    text.filter(|c: char| is_ascii_letter(c)).len()
}

/// Whether a run starts at position `i` of `marks`: the mark there is set,
/// and the one just before it is not.
pub open spec fn starts_run(marks: Seq<bool>, i: int) -> bool {
    &&& 0 <= i < marks.len()
    &&& marks[i]
    &&& (i == 0 || !marks[i - 1])
}

/// The number of positions below `n` at which a run starts.
pub open spec fn runs_before(marks: Seq<bool>, n: int) -> nat
    decreases n,
{
    if n <= 0 {
        0
    } else {
        runs_before(marks, n - 1) + if starts_run(marks, n - 1) {
            1nat
        } else {
            0nat
        }
    }
}

/// The number of runs of `marks`. A run is a stretch of set marks that
/// cannot be extended on either side, so each run has exactly one start.
pub open spec fn run_count(marks: Seq<bool>) -> nat {
    runs_before(marks, marks.len() as int)
}

/// For each character of `text`, whether it is a word character.
pub open spec fn word_marks(text: Seq<char>) -> Seq<bool> {
    Seq::new(text.len(), |i: int| is_word_char(text[i]))
}

/// The number of words of `text`: the runs of its word characters. Other
/// characters part two words and belong to none.
pub open spec fn word_count(text: Seq<char>) -> nat {
    run_count(word_marks(text))
}

/// Counts the runs of set marks.
pub fn count_runs(marks: &[bool]) -> (n: usize)
    ensures
        n == run_count(marks@),
{
    let mut n: usize = 0;
    let mut inside = false;
    for i in 0..marks.len()
        invariant
            n == runs_before(marks@, i as int),
            n <= i,
            inside == (i > 0 && marks@[i - 1]),
    {
        if marks[i] && !inside {
            n = n + 1;
        }
        inside = marks[i];
    }
    n
}

/// The three counts of a text.
#[derive(Clone, Copy, Debug, PartialEq, Eq, Structural)]
pub struct TextCounts {
    pub sentences: usize,
    pub words: usize,
    pub letters: usize,
}

impl TextCounts {
    /// The counts as they are defined for the characters of a text.
    pub open spec fn of(text: Seq<char>) -> (nat, nat, nat) {
        (sentence_count(text), word_count(text), letter_count(text))
    }

    /// The counts as a triple of sentences, words and letters.
    pub open spec fn triple(&self) -> (nat, nat, nat) {
        (self.sentences as nat, self.words as nat, self.letters as nat)
    }

    /// Tells whether the text has no word or no sentence. The formula divides
    /// by the number of words and has nothing to say of such a text: its
    /// index is 0.
    pub fn is_degenerate(&self) -> (b: bool)
        ensures
            b == (self.words == 0 || self.sentences == 0),
    {
        self.words == 0 || self.sentences == 0
    }
}

} // verus!
