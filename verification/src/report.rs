//! The class report: one code for each character of a word.

use vstd::prelude::*;
use crate::classify::{classified, classify_word, Classified};
use crate::tables::consonant_table;

verus! {

/// The class codes of the entries, position by position.
pub open spec fn class_codes(units: Seq<Classified>) -> Seq<char> {
    units.map_values(|u: Classified| u.class_code())
}

/// The class report of a word: `H`, `M` or `L` where a consonant of that
/// class stands, and a space everywhere else.
pub open spec fn consonant_classes(word: Seq<char>) -> Seq<char> {
    class_codes(classified(word))
}

/// A sequence that grows by one entry is reported as before, followed by
/// the code of that entry.
pub proof fn lemma_class_codes_push(units: Seq<Classified>, unit: Classified)
    ensures
        class_codes(units.push(unit)) == class_codes(units).push(unit.class_code()),
{
    assert(class_codes(units.push(unit)) =~= class_codes(units).push(unit.class_code()));
}

/// Writes the class code of every entry of `units`.
pub fn report_classes(units: &Vec<Classified>) -> (out: String)
    ensures
        out@ == class_codes(units@),
        out@.len() == units@.len(),
{
    let mut out = String::new();
    let mut i: usize = 0;
    while i < units.len()
        invariant
            i <= units.len(),
            out@ == class_codes(units@.take(i as int)),
        decreases units.len() - i,
    {
        out.push(units[i].class_code());
        proof {
            assert(units@.take(i + 1) == units@.take(i as int).push(units@[i as int]));
            lemma_class_codes_push(units@.take(i as int), units@[i as int]);
        }
        i += 1;
    }
    assert(units@.take(units@.len() as int) == units@);
    out
}

/// Reports the consonant classes of `word`. The report has one character
/// for each character of the word, so the two can be laid over each other.
pub fn get_consonant_classes(word: &str) -> (out: String)
    ensures
        out@ == consonant_classes(word@),
        out@.len() == word@.len(),
{
    let units = classify_word(word);
    report_classes(&units)
}

/// The report is aligned with the word: it is as long as the word, and the
/// code at each position is that of the character at the same position.
pub proof fn lemma_report_aligned(word: Seq<char>)
    ensures
        consonant_classes(word).len() == word.len(),
        forall|i: int|
            0 <= i < word.len() ==> #[trigger] consonant_classes(word)[i] == Classified::of(
                word[i],
            ).class_code(),
{
}

/// A consonant of the table, alone, is reported as the letter of its class.
pub proof fn lemma_consonant_alone(c: char)
    requires
        consonant_table().contains_key(c),
    ensures
        consonant_classes(seq![c]) == seq![consonant_table()[c].0.letter()],
        consonant_classes(seq![c]).len() == 1,
{
    assert(consonant_classes(seq![c]) =~= seq![consonant_table()[c].0.letter()]);
}

/// A character that is not in the consonant table, alone, is reported as a
/// space: a vowel sign, a tone mark, an aspirate and an unrecognised
/// character alike. O ANG is in the consonant table, though the vowel table
/// lists it too, and is reported as a consonant.
pub proof fn lemma_other_alone(c: char)
    requires
        !consonant_table().contains_key(c),
    ensures
        consonant_classes(seq![c]) == seq![' '],
{
    assert(consonant_classes(seq![c]) =~= seq![' ']);
}

/// The report depends on nothing but the characters of the word: two
/// results that [`get_consonant_classes`] may give for words of the same
/// characters hold the same text.
pub proof fn lemma_report_repeatable(word: &str, again: &str, first: String, second: String)
    requires
        word@ == again@,
        first@ == consonant_classes(word@),
        second@ == consonant_classes(again@),
    ensures
        first@ == second@,
{
}

} // verus!
