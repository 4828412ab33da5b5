//! The fixed lookup tables: which characters are consonants, vowels, tone
//! marks and aspirates, and the Latin text each one contributes.
//!
//! Long vowels are written with the same letters as their short
//! counterparts: SARA AA is `a`, SARA II is `i`, and so on.

use vstd::prelude::*;
use crate::unit::ConsonantClass;

verus! {

/// The aspirate consonants HO HIP and HO NOKHUK. They carry no class and are
/// recognised before any table is consulted.
pub open spec fn modifier_set() -> Set<char> {
    set!['ห', 'ฮ']
}

/// Every class-bearing consonant with its class and romanization.
pub open spec fn consonant_table() -> Map<char, (ConsonantClass, &'static str)> {
    map![
        'ข' => (ConsonantClass::High, "kh"),
        'ฃ' => (ConsonantClass::High, "kh"),
        'ฉ' => (ConsonantClass::High, "ch"),
        'ฐ' => (ConsonantClass::High, "th"),
        'ถ' => (ConsonantClass::High, "th"),
        'ผ' => (ConsonantClass::High, "ph"),
        'ฝ' => (ConsonantClass::High, "f"),
        'ศ' => (ConsonantClass::High, "s"),
        'ษ' => (ConsonantClass::High, "s"),
        'ส' => (ConsonantClass::High, "s"),
        'ก' => (ConsonantClass::Mid, "k"),
        'จ' => (ConsonantClass::Mid, "ch"),
        'ฎ' => (ConsonantClass::Mid, "d"),
        'ฏ' => (ConsonantClass::Mid, "t"),
        'ด' => (ConsonantClass::Mid, "d"),
        'ต' => (ConsonantClass::Mid, "t"),
        'บ' => (ConsonantClass::Mid, "b"),
        'ป' => (ConsonantClass::Mid, "p"),
        'อ' => (ConsonantClass::Mid, ""),
        'ค' => (ConsonantClass::Low, "kh"),
        'ฅ' => (ConsonantClass::Low, "kh"),
        'ฆ' => (ConsonantClass::Low, "kh"),
        'ง' => (ConsonantClass::Low, "ng"),
        'ช' => (ConsonantClass::Low, "ch"),
        'ซ' => (ConsonantClass::Low, "s"),
        'ฌ' => (ConsonantClass::Low, "ch"),
        'ญ' => (ConsonantClass::Low, "y"),
        'ฑ' => (ConsonantClass::Low, "th"),
        'ฒ' => (ConsonantClass::Low, "th"),
        'ณ' => (ConsonantClass::Low, "n"),
        'ท' => (ConsonantClass::Low, "th"),
        'ธ' => (ConsonantClass::Low, "th"),
        'น' => (ConsonantClass::Low, "n"),
        'พ' => (ConsonantClass::Low, "ph"),
        'ฟ' => (ConsonantClass::Low, "f"),
        'ภ' => (ConsonantClass::Low, "ph"),
        'ม' => (ConsonantClass::Low, "m"),
        'ย' => (ConsonantClass::Low, "y"),
        'ร' => (ConsonantClass::Low, "r"),
        'ล' => (ConsonantClass::Low, "l"),
        'ว' => (ConsonantClass::Low, "w"),
        'ฬ' => (ConsonantClass::Low, "l"),
    ]
}

/// Every vowel sign with its romanization.
///
/// O ANG is listed here and in [`consonant_table`]; no other character is in
/// two tables.
pub open spec fn vowel_table() -> Map<char, &'static str> {
    map![
        'ะ' => "a",
        'า' => "a",
        '\u{0E31}' => "a",
        '\u{0E34}' => "i",
        '\u{0E35}' => "i",
        '\u{0E38}' => "u",
        '\u{0E39}' => "u",
        'เ' => "e",
        'แ' => "\u{025B}",
        'โ' => "o",
        'ใ' => "ai",
        'ไ' => "ai",
        'อ' => "\u{0254}",
    ]
}

/// Every tone mark with the combining diacritic that stands for it:
/// MAI EK a grave accent, MAI THO a circumflex, MAI TRI an acute accent and
/// MAI CHATTAWA a caron.
pub open spec fn tone_marker_table() -> Map<char, &'static str> {
    map![
        '\u{0E48}' => "\u{0300}",
        '\u{0E49}' => "\u{0302}",
        '\u{0E4A}' => "\u{0301}",
        '\u{0E4B}' => "\u{030C}",
    ]
}

/// Whether `c` is one of the two aspirate consonants.
pub fn is_modifier(c: char) -> (r: bool)
    ensures
        r == modifier_set().contains(c),
{
    c == 'ห' || c == 'ฮ'
}

/// Looks `c` up in the consonant table.
pub fn lookup_consonant(c: char) -> (r: Option<(ConsonantClass, &'static str)>)
    ensures
        r == consonant_table().get(c),
{
    match c {
        'ข' | 'ฃ' => Some((ConsonantClass::High, "kh")),
        'ฉ' => Some((ConsonantClass::High, "ch")),
        'ฐ' | 'ถ' => Some((ConsonantClass::High, "th")),
        'ผ' => Some((ConsonantClass::High, "ph")),
        'ฝ' => Some((ConsonantClass::High, "f")),
        'ศ' | 'ษ' | 'ส' => Some((ConsonantClass::High, "s")),
        'ก' => Some((ConsonantClass::Mid, "k")),
        'จ' => Some((ConsonantClass::Mid, "ch")),
        'ฎ' | 'ด' => Some((ConsonantClass::Mid, "d")),
        'ฏ' | 'ต' => Some((ConsonantClass::Mid, "t")),
        'บ' => Some((ConsonantClass::Mid, "b")),
        'ป' => Some((ConsonantClass::Mid, "p")),
        'อ' => Some((ConsonantClass::Mid, "")),
        'ค' | 'ฅ' | 'ฆ' => Some((ConsonantClass::Low, "kh")),
        'ง' => Some((ConsonantClass::Low, "ng")),
        'ช' | 'ฌ' => Some((ConsonantClass::Low, "ch")),
        'ซ' => Some((ConsonantClass::Low, "s")),
        'ญ' | 'ย' => Some((ConsonantClass::Low, "y")),
        'ฑ' | 'ฒ' | 'ท' | 'ธ' => Some((ConsonantClass::Low, "th")),
        'ณ' | 'น' => Some((ConsonantClass::Low, "n")),
        'พ' | 'ภ' => Some((ConsonantClass::Low, "ph")),
        'ฟ' => Some((ConsonantClass::Low, "f")),
        'ม' => Some((ConsonantClass::Low, "m")),
        'ร' => Some((ConsonantClass::Low, "r")),
        'ล' | 'ฬ' => Some((ConsonantClass::Low, "l")),
        'ว' => Some((ConsonantClass::Low, "w")),
        _ => None,
    }
}

/// Looks `c` up in the vowel table.
pub fn lookup_vowel(c: char) -> (r: Option<&'static str>)
    ensures
        r == vowel_table().get(c),
{
    match c {
        'ะ' | 'า' | '\u{0E31}' => Some("a"),
        '\u{0E34}' | '\u{0E35}' => Some("i"),
        '\u{0E38}' | '\u{0E39}' => Some("u"),
        'เ' => Some("e"),
        'แ' => Some("\u{025B}"),
        'โ' => Some("o"),
        'ใ' | 'ไ' => Some("ai"),
        'อ' => Some("\u{0254}"),
        _ => None,
    }
}

/// Looks `c` up in the tone mark table.
pub fn lookup_tone_marker(c: char) -> (r: Option<&'static str>)
    ensures
        r == tone_marker_table().get(c),
{
    match c {
        '\u{0E48}' => Some("\u{0300}"),
        '\u{0E49}' => Some("\u{0302}"),
        '\u{0E4A}' => Some("\u{0301}"),
        '\u{0E4B}' => Some("\u{030C}"),
        _ => None,
    }
}

/// How the tables lie to one another: an aspirate is in no table, a tone
/// mark is in no other table, and O ANG is the one character that is both
/// in the consonant table and in the vowel table.
pub proof fn lemma_tables_apart(c: char)
    ensures
        modifier_set().contains(c) ==> !consonant_table().contains_key(c)
            && !vowel_table().contains_key(c) && !tone_marker_table().contains_key(c),
        tone_marker_table().contains_key(c) ==> !consonant_table().contains_key(c)
            && !vowel_table().contains_key(c),
        consonant_table().contains_key(c) && vowel_table().contains_key(c) <==> c == 'อ',
{
}

/// The tables hold 42 consonants, 13 vowel signs and 4 tone marks, and
/// there are 2 aspirates: no character is entered twice in one table.
pub proof fn lemma_table_sizes()
    ensures
        modifier_set().finite() && modifier_set().len() == 2,
        consonant_table().dom().finite() && consonant_table().dom().len() == 42,
        vowel_table().dom().finite() && vowel_table().dom().len() == 13,
        tone_marker_table().dom().finite() && tone_marker_table().dom().len() == 4,
{
}

} // verus!
