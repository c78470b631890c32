//! The three character classes that the counts are taken over.

use vstd::prelude::*;

verus! {

/// A character that ends a sentence: a full stop, an exclamation mark or a
/// question mark.
pub open spec fn is_sentence_end(c: char) -> bool {
    c == '.' || c == '!' || c == '?'
}

/// A letter of the ASCII alphabet, in either case. Letters outside ASCII,
/// accented ones among them, are not in this class.
pub open spec fn is_ascii_letter(c: char) -> bool {
    ('a' <= c && c <= 'z') || ('A' <= c && c <= 'Z')
}

/// Whether `c` is a word character of Unicode: what the crate `regex-syntax`
/// answers for it. Its answer rests on tables of the Unicode character
/// database, which are not restated here.
pub uninterp spec fn is_word_char(c: char) -> bool;

/// Tells whether `c` ends a sentence.
pub fn ends_sentence(c: char) -> (b: bool)
    ensures
        b == is_sentence_end(c),
{
    c == '.' || c == '!' || c == '?'
}

/// Tells whether `c` is a letter of the ASCII alphabet.
pub fn is_letter(c: char) -> (b: bool)
    ensures
        b == is_ascii_letter(c),
{
    ('a' <= c && c <= 'z') || ('A' <= c && c <= 'Z')
}

/// Calls `regex_syntax::is_word_character`, which tells whether a character
/// is a word character of Unicode: one with the property `Alphabetic` or
/// `Join_Control`, or of the general category `Decimal_Number`, `Mark` or
/// `Connector_Punctuation`. Not proved: that the call returns, and that its
/// answer depends on the character alone, so that `is_word_char` can stand
/// for it. The call fails only where `regex-syntax` is built without its
/// feature `unicode-perl`, which this crate's manifest turns on.
#[verifier::external_body]
pub(crate) fn word_character(c: char) -> (b: bool)
    ensures
        b == is_word_char(c),
{
    regex_syntax::is_word_character(c)
}

} // verus!
