//! The phonetic roles a Thai character can play.

use vstd::prelude::*;

verus! {

/// The three-way grouping of Thai consonants that governs tone rules.
#[derive(Debug, Clone, Copy, PartialEq, Eq)]
pub enum ConsonantClass {
    High,
    Mid,
    Low,
}

impl ConsonantClass {
    /// The one-letter code under which the class is reported.
    pub open spec fn spec_letter(self) -> char {
        match self {
            ConsonantClass::High => 'H',
            ConsonantClass::Mid => 'M',
            ConsonantClass::Low => 'L',
        }
    }

    /// The one-letter code under which the class is reported.
    #[verifier::when_used_as_spec(spec_letter)]
    pub fn letter(self) -> (r: char)
        ensures
            r == self.spec_letter(),
    {
        match self {
            ConsonantClass::High => 'H',
            ConsonantClass::Mid => 'M',
            ConsonantClass::Low => 'L',
        }
    }
}

/// What one Thai character stands for, with the Latin text it contributes.
#[derive(Debug, Clone, Copy, PartialEq)]
pub enum ThaiChar {
    /// A consonant that carries a tone class.
    C { class: ConsonantClass, roman: &'static str },
    /// A vowel sign.
    V(&'static str),
    /// A tone mark, written as a combining diacritic.
    T { tone: &'static str },
    /// An aspirate consonant, which carries no class.
    M { roman: &'static str },
}

impl ThaiChar {
    /// The Latin text of the unit: its romanization, or the diacritic of a
    /// tone mark.
    pub open spec fn text(self) -> Seq<char> {
        match self {
            ThaiChar::C { roman, .. } => roman@,
            ThaiChar::V(roman) => roman@,
            ThaiChar::T { tone } => tone@,
            ThaiChar::M { roman } => roman@,
        }
    }

    /// The class of a consonant; no other unit has one.
    pub open spec fn spec_class(self) -> Option<ConsonantClass> {
        match self {
            ThaiChar::C { class, .. } => Some(class),
            _ => None,
        }
    }

    /// The Latin text of the unit, as [`ThaiChar::text`] defines it.
    pub fn as_str(self) -> (s: &'static str)
        ensures
            s@ == self.text(),
    {
        match self {
            ThaiChar::C { roman, .. } => roman,
            ThaiChar::V(roman) => roman,
            ThaiChar::T { tone } => tone,
            ThaiChar::M { roman } => roman,
        }
    }

    /// The class of a consonant; no other unit has one.
    #[verifier::when_used_as_spec(spec_class)]
    pub fn class(self) -> (r: Option<ConsonantClass>)
        ensures
            r == self.spec_class(),
    {
        match self {
            ThaiChar::C { class, .. } => Some(class),
            _ => None,
        }
    }
}

} // verus!
