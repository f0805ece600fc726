//! Guess-word validation: a guess is acceptable only as a word of exactly
//! five characters, all of them lowercase letters. The validation policy of
//! the proxy rejects a word only when *both* the length check and the case
//! check fail at once; this module supplies the two checks and their specs.

use vstd::prelude::*;

verus! {

/// Whether a character counts as lowercase. The decision is Unicode's
/// Lowercase category, a function of the character alone; it is given a
/// name here and pinned to the standard library below.
pub uninterp spec fn is_lowercase_char(c: char) -> bool;

/// Relies on char::is_lowercase: true exactly when the character is in
/// Unicode's Lowercase category, a function of the character alone.
#[verifier::external_body]
fn char_is_lowercase(c: char) -> (r: bool)
    ensures
        r == is_lowercase_char(c),
{
    c.is_lowercase()
}

/// A word is lowercase when it is non-empty and every character of it is
/// lowercase.
pub open spec fn word_is_lowercase(w: Seq<char>) -> bool {
    w.len() > 0 && (forall|i: int| 0 <= i < w.len() ==> is_lowercase_char(w[i]))
}

/// The proxy's rejection rule for a guess: the word is turned away only
/// when its length is not five *and* it is not all-lowercase. A word that
/// fails only one of the two checks passes.
pub open spec fn word_rejected(w: Seq<char>) -> bool {
    w.len() != 5 && !word_is_lowercase(w)
}

/// True exactly when the word is non-empty and all its characters are
/// lowercase.
pub fn is_word_lowercase(word: String) -> (r: bool)
    ensures
        r == word_is_lowercase(word@),
{
    let s = word.as_str();
    let n = s.unicode_len();
    if n == 0 {
        return false;
    }
    let mut i: usize = 0;
    while i < n
        invariant
            n == word@.len(),
            s@ == word@,
            i <= n,
            forall|j: int| 0 <= j < i ==> is_lowercase_char(word@[j]),
        decreases n - i,
    {
        if !char_is_lowercase(s.get_char(i)) {
            return false;
        }
        i += 1;
    }
    true
}

} // verus!
