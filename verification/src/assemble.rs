//! Assembly of a classified sequence into a romanized syllable.

use vstd::prelude::*;
use crate::classify::{classified, classify_word, Classified};
use crate::tables::{consonant_table, vowel_table};

verus! {

/// The vowel that is read between two consonants written with none.
pub const DEFAULT_VOWEL: char = 'o';

/// The texts of the entries, one after another in the order of the entries.
pub open spec fn concatenated(units: Seq<Classified>) -> Seq<char> {
    units.map_values(|u: Classified| u.text()).flatten()
}

/// The romanization of a classified sequence.
///
/// Two consonants are read with the default vowel between them. Three
/// entries that are consonant, vowel, consonant are read in that order, and
/// a vowel written before two consonants is read between them. Every other
/// sequence, of whatever length, is the concatenation of its texts.
pub open spec fn assembled(units: Seq<Classified>) -> Seq<char> {
    if units.len() == 2 && units[0].is_consonant() && units[1].is_consonant() {
        units[0].text() + seq![DEFAULT_VOWEL] + units[1].text()
    } else if units.len() == 3 && units[0].is_consonant() && units[1].is_vowel()
        && units[2].is_consonant() {
        units[0].text() + units[1].text() + units[2].text()
    } else if units.len() == 3 && units[0].is_vowel() && units[1].is_consonant()
        && units[2].is_consonant() {
        units[1].text() + units[0].text() + units[2].text()
    } else {
        concatenated(units)
    }
}

/// The romanization of a word.
pub open spec fn pronunciation(word: Seq<char>) -> Seq<char> {
    assembled(classified(word))
}

/// A sequence that grows by one entry reads as before, followed by the text
/// of that entry.
pub proof fn lemma_concatenated_push(units: Seq<Classified>, unit: Classified)
    ensures
        concatenated(units.push(unit)) == concatenated(units) + unit.text(),
{
    let texts = units.map_values(|u: Classified| u.text());
    assert(units.push(unit).map_values(|u: Classified| u.text()) =~= texts.push(unit.text()));
    texts.lemma_flatten_push(unit.text());
}

/// Concatenates the texts of `units` in order.
pub fn concatenate(units: &Vec<Classified>) -> (out: String)
    ensures
        out@ == concatenated(units@),
{
    let mut out = String::new();
    let mut i: usize = 0;
    while i < units.len()
        invariant
            i <= units.len(),
            out@ == concatenated(units@.take(i as int)),
        decreases units.len() - i,
    {
        units[i].write_text(&mut out);
        proof {
            assert(units@.take(i + 1) == units@.take(i as int).push(units@[i as int]));
            lemma_concatenated_push(units@.take(i as int), units@[i as int]);
        }
        i += 1;
    }
    assert(units@.take(units@.len() as int) == units@);
    out
}

/// Assembles the romanization of a classified sequence.
pub fn assemble(units: &Vec<Classified>) -> (out: String)
    ensures
        out@ == assembled(units@),
{
    let n = units.len();
    if n == 2 && units[0].is_consonant() && units[1].is_consonant() {
        let mut out = String::new();
        units[0].write_text(&mut out);
        out.push(DEFAULT_VOWEL);
        units[1].write_text(&mut out);
        out
    } else if n == 3 && units[0].is_consonant() && units[1].is_vowel() && units[2].is_consonant() {
        let mut out = String::new();
        units[0].write_text(&mut out);
        units[1].write_text(&mut out);
        units[2].write_text(&mut out);
        out
    } else if n == 3 && units[0].is_vowel() && units[1].is_consonant() && units[2].is_consonant() {
        let mut out = String::new();
        units[1].write_text(&mut out);
        units[0].write_text(&mut out);
        units[2].write_text(&mut out);
        out
    } else {
        concatenate(units)
    }
}

/// Romanizes `word`. Every input has a romanization: a character that is
/// not recognised stands for itself.
pub fn pronounce(word: &str) -> (out: String)
    ensures
        out@ == pronunciation(word@),
{
    let units = classify_word(word);
    assemble(&units)
}

/// Two consonants of the table are read with the default vowel between
/// their romanizations.
pub proof fn lemma_two_consonants(c1: char, c2: char)
    requires
        consonant_table().contains_key(c1),
        consonant_table().contains_key(c2),
    ensures
        pronunciation(seq![c1, c2]) == consonant_table()[c1].1@ + seq![DEFAULT_VOWEL]
            + consonant_table()[c2].1@,
{
}

/// A vowel sign between two consonants of the table is read where it
/// stands. The sign must not itself be in the consonant table, where it
/// would count as a consonant.
pub proof fn lemma_consonant_vowel_consonant(c1: char, v: char, c2: char)
    requires
        consonant_table().contains_key(c1),
        vowel_table().contains_key(v) && !consonant_table().contains_key(v),
        consonant_table().contains_key(c2),
    ensures
        pronunciation(seq![c1, v, c2]) == consonant_table()[c1].1@ + vowel_table()[v]@
            + consonant_table()[c2].1@,
{
}

/// A vowel sign written before two consonants of the table is read between
/// them. The sign must not itself be in the consonant table.
pub proof fn lemma_vowel_consonant_consonant(v: char, c1: char, c2: char)
    requires
        vowel_table().contains_key(v) && !consonant_table().contains_key(v),
        consonant_table().contains_key(c1),
        consonant_table().contains_key(c2),
    ensures
        pronunciation(seq![v, c1, c2]) == consonant_table()[c1].1@ + vowel_table()[v]@
            + consonant_table()[c2].1@,
{
}

/// Romanization depends on nothing but the characters of the word: two
/// results that [`pronounce`] may give for words of the same characters
/// hold the same text.
pub proof fn lemma_pronounce_repeatable(word: &str, again: &str, first: String, second: String)
    requires
        word@ == again@,
        first@ == pronunciation(word@),
        second@ == pronunciation(again@),
    ensures
        first@ == second@,
{
}

} // verus!
