//! The formula of the index, and the index as an exact fraction.

use vstd::prelude::*;

verus! {

/// The formula, for a text that has a word:
/// `89 - 10 * letters / words + 300 * sentences / words`.
pub open spec fn formula(sentences: nat, words: nat, letters: nat) -> real
    recommends
        words > 0,
{
    let w = words as real;
    89 as real - (10 * letters) as real / w + (300 * sentences) as real / w
}

/// `x`, or the nearer end of the interval from 0 to 100 where `x` lies
/// outside it.
pub open spec fn clamped(x: real) -> real {
    if x < 0 as real {
        0 as real
    } else if x > 100 as real {
        100 as real
    } else {
        x
    }
}

/// The Gulpease index of a text with the given counts: 0 for a text without
/// a word or without a sentence, and else the value of the formula, clamped
/// to the interval from 0 to 100.
pub open spec fn gulpease(sentences: nat, words: nat, letters: nat) -> real {
    if words == 0 || sentences == 0 {
        0 as real
    } else {
        clamped(formula(sentences, words, letters))
    }
}

/// The formula multiplied by `words`, which is an integer:
/// `89 * words - 10 * letters + 300 * sentences`.
pub open spec fn raw_numerator(sentences: nat, words: nat, letters: nat) -> int {
    89 * words - 10 * letters + 300 * sentences
}

/// The fraction that a `Score` holds for the given counts, as the pair of a
/// numerator and a positive denominator. The ends of the interval are
/// written `0 / 1` and `100 / 1`; a value strictly between them is written
/// over the denominator `words`.
pub open spec fn index_fraction(sentences: nat, words: nat, letters: nat) -> (nat, nat) {
    let raw = raw_numerator(sentences, words, letters);
    if words == 0 || sentences == 0 || raw <= 0 {
        (0, 1)
    } else if raw >= 100 * words {
        (100, 1)
    } else {
        (raw as nat, words)
    }
}

/// The number that the fraction `numerator / denominator` stands for.
pub open spec fn fraction_value(fraction: (nat, nat)) -> real {
    fraction.0 as real / (fraction.1 as real)
}

/// The fraction kept for given counts is the index of those counts: it
/// stands for the clamped value of the formula.
pub proof fn lemma_fraction_is_index(sentences: nat, words: nat, letters: nat)
    ensures
        fraction_value(index_fraction(sentences, words, letters)) == gulpease(
            sentences,
            words,
            letters,
        ),
{
    assert(0 as real / (1 as real) == 0 as real);
    assert(100 as real / (1 as real) == 100 as real);
    if words > 0 && sentences > 0 {
        let w = words as real;
        let minus = (10 * letters) as real;
        let plus = (300 * sentences) as real;
        let raw = raw_numerator(sentences, words, letters) as real;
        let f = formula(sentences, words, letters);
        assert(raw == 89 as real * w - minus + plus);
        assert(f == raw / w && f * w == raw) by (nonlinear_arith)
            requires
                w > 0 as real,
                raw == 89 as real * w - minus + plus,
                f == 89 as real - minus / w + plus / w,
        ;
        assert((f <= 0 as real) == (raw <= 0 as real) && (f >= 100 as real) == (raw
            >= 100 as real * w)) by (nonlinear_arith)
            requires
                w > 0 as real,
                f * w == raw,
        ;
    }
}

/// Whatever the counts, the index lies between 0 and 100.
pub proof fn lemma_index_in_range(sentences: nat, words: nat, letters: nat)
    ensures
        0 as real <= gulpease(sentences, words, letters) <= 100 as real,
{
}

/// A Gulpease index: the fraction `numerator / denominator`, which lies
/// between 0 and 100.
#[derive(Clone, Copy, Debug)]
pub struct Score {
    numerator: u128,
    denominator: u128,
}

impl Score {
    #[verifier::type_invariant]
    spec fn in_range(&self) -> bool {
        0 < self.denominator && self.numerator <= 100 * self.denominator
    }

    pub closed spec fn spec_numerator(&self) -> u128 {
        self.numerator
    }

    pub closed spec fn spec_denominator(&self) -> u128 {
        self.denominator
    }

    /// The fraction as the pair of its numerator and its denominator.
    pub open spec fn fraction(&self) -> (nat, nat) {
        (self.numerator() as nat, self.denominator() as nat)
    }

    /// The number that the score stands for.
    pub open spec fn value(&self) -> real {
        fraction_value(self.fraction())
    }

    /// The numerator of the fraction, at most 100 times the denominator.
    #[verifier::when_used_as_spec(spec_numerator)]
    pub fn numerator(&self) -> (n: u128)
        ensures
            n == self.numerator(),
            n <= 100 * self.denominator(),
    {
        proof {
            use_type_invariant(self);
        }
        self.numerator
    }

    /// The denominator of the fraction, which is never zero.
    #[verifier::when_used_as_spec(spec_denominator)]
    pub fn denominator(&self) -> (d: u128)
        ensures
            d == self.denominator(),
            d > 0,
    {
        proof {
            use_type_invariant(self);
        }
        self.denominator
    }

    /// The index of a text that has the given numbers of sentences, words and
    /// letters.
    pub fn from_counts(sentences: usize, words: usize, letters: usize) -> (score: Score)
        ensures
            score.value() == gulpease(sentences as nat, words as nat, letters as nat),
            score.fraction() == index_fraction(sentences as nat, words as nat, letters as nat),
    {
        proof {
            lemma_fraction_is_index(sentences as nat, words as nat, letters as nat);
        }
        if words == 0 || sentences == 0 {
            return Score { numerator: 0, denominator: 1 };
        }
        let w: u128 = words as u128;
        let gain: u128 = 89 * w + 300 * (sentences as u128);
        let loss: u128 = 10 * (letters as u128);
        if gain <= loss {
            Score { numerator: 0, denominator: 1 }
        } else if gain - loss >= 100 * w {
            Score { numerator: 100, denominator: 1 }
        } else {
            Score { numerator: gain - loss, denominator: w }
        }
    }
}

} // verus!
