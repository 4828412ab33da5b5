//! Classification of single characters and of whole words.

use vstd::prelude::*;
use crate::tables::{
    consonant_table, is_modifier, lookup_consonant, lookup_tone_marker, lookup_vowel, modifier_set,
    tone_marker_table, vowel_table,
};
use crate::unit::ThaiChar;

verus! {

/// The phonetic unit of `c`, if it has one.
///
/// The aspirates come first, then the consonant table, the vowel table and
/// the tone mark table; a character listed twice is what the earliest of
/// these says it is.
pub open spec fn classify(c: char) -> Option<ThaiChar> {
    if modifier_set().contains(c) {
        Some(ThaiChar::M { roman: "h" })
    } else if consonant_table().contains_key(c) {
        Some(ThaiChar::C { class: consonant_table()[c].0, roman: consonant_table()[c].1 })
    } else if vowel_table().contains_key(c) {
        Some(ThaiChar::V(vowel_table()[c]))
    } else if tone_marker_table().contains_key(c) {
        Some(ThaiChar::T { tone: tone_marker_table()[c] })
    } else {
        None
    }
}

/// Classifies one character.
pub fn classify_char(c: char) -> (r: Option<ThaiChar>)
    ensures
        r == classify(c),
{
    if is_modifier(c) {
        return Some(ThaiChar::M { roman: "h" });
    }
    if let Some((class, roman)) = lookup_consonant(c) {
        return Some(ThaiChar::C { class, roman });
    }
    if let Some(roman) = lookup_vowel(c) {
        return Some(ThaiChar::V(roman));
    }
    if let Some(tone) = lookup_tone_marker(c) {
        return Some(ThaiChar::T { tone });
    }
    None
}

/// One character of a word together with its classification.
#[derive(Debug, Clone, Copy, PartialEq)]
pub struct Classified {
    /// The character as it stood in the word.
    pub original: char,
    /// Its phonetic unit, or `None` where the character is not recognised.
    pub unit: Option<ThaiChar>,
}

impl Classified {
    /// The entry that classification gives for `c`.
    pub open spec fn of(c: char) -> Classified {
        Classified { original: c, unit: classify(c) }
    }

    /// Whether the character was recognised as a class-bearing consonant.
    pub open spec fn spec_is_consonant(self) -> bool {
        self.unit matches Some(ThaiChar::C { .. })
    }

    /// Whether the character was recognised as a vowel sign.
    pub open spec fn spec_is_vowel(self) -> bool {
        self.unit matches Some(ThaiChar::V(_))
    }

    /// The text the entry contributes to a romanization: that of its unit,
    /// or the character itself where it was not recognised.
    pub open spec fn text(self) -> Seq<char> {
        match self.unit {
            Some(unit) => unit.text(),
            None => seq![self.original],
        }
    }

    /// The code the entry contributes to a class report: the letter of a
    /// consonant's class, and a space for anything else.
    pub open spec fn spec_class_code(self) -> char {
        match self.unit {
            Some(ThaiChar::C { class, .. }) => class.letter(),
            _ => ' ',
        }
    }

    /// Whether the character was recognised as a class-bearing consonant.
    #[verifier::when_used_as_spec(spec_is_consonant)]
    pub fn is_consonant(self) -> (r: bool)
        ensures
            r == self.spec_is_consonant(),
    {
        match self.unit {
            Some(ThaiChar::C { .. }) => true,
            _ => false,
        }
    }

    /// Whether the character was recognised as a vowel sign.
    #[verifier::when_used_as_spec(spec_is_vowel)]
    pub fn is_vowel(self) -> (r: bool)
        ensures
            r == self.spec_is_vowel(),
    {
        match self.unit {
            Some(ThaiChar::V(_)) => true,
            _ => false,
        }
    }

    /// Appends the entry's text, as [`Classified::text`] defines it, to `out`.
    pub fn write_text(self, out: &mut String)
        ensures
            final(out)@ == old(out)@ + self.text(),
    {
        match self.unit {
            Some(unit) => out.append(unit.as_str()),
            None => out.push(self.original),
        }
    }

    /// The code the entry contributes to a class report: the letter of a
    /// consonant's class, and a space for anything else.
    #[verifier::when_used_as_spec(spec_class_code)]
    pub fn class_code(self) -> (r: char)
        ensures
            r == self.spec_class_code(),
    {
        match self.unit {
            Some(ThaiChar::C { class, .. }) => class.letter(),
            _ => ' ',
        }
    }
}

/// The classified sequence of a word: one entry for each character, in order.
pub open spec fn classified(word: Seq<char>) -> Seq<Classified> {
    word.map_values(|c: char| Classified::of(c))
}

/// A word that grows by one character grows by that character's entry.
pub proof fn lemma_classified_push(word: Seq<char>, c: char)
    ensures
        classified(word.push(c)) == classified(word).push(Classified::of(c)),
{
    assert(classified(word.push(c)) =~= classified(word).push(Classified::of(c)));
}

/// Classifies every character of `word`. The entries stand in the order of
/// the characters, one for each.
pub fn classify_word(word: &str) -> (units: Vec<Classified>)
    ensures
        units@ == classified(word@),
        units@.len() == word@.len(),
{
    let mut units: Vec<Classified> = Vec::new();
    let chars = word.chars();
    for c in it: chars
        invariant
            it.seq() == word@,
            units@ == classified(word@.take(it.index())),
    {
        units.push(Classified { original: c, unit: classify_char(c) });
        proof {
            assert(word@.take(it.index() + 1) == word@.take(it.index()).push(c));
            lemma_classified_push(word@.take(it.index()), c);
        }
    }
    assert(word@.take(word@.len() as int) == word@);
    units
}

} // verus!
