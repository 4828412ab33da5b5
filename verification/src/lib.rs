//! Romanization of Thai script and the tone class of its consonants.
//!
//! [`pronounce`] turns a word written in Thai script into an approximate
//! reading in Latin letters. [`get_consonant_classes`] reports, position by
//! position, whether a character is a consonant of the high, middle or low
//! class. Both classify the word character by character with
//! [`classify_char`] and then read the classified sequence; neither can
//! fail.
//!
//! Two conventions hold throughout:
//!
//! - a long vowel is written with the same letters as the short one;
//! - a character that is in no table is kept as it is in a romanization
//!   and, like everything that is not a consonant, shows as a space in a
//!   class report.
//!
//! The contracts speak of strings by their characters, as `Seq<char>`.

pub mod assemble;
pub mod classify;
pub mod report;
pub mod strings;
pub mod tables;
pub mod unit;

pub use assemble::{assemble, concatenate, pronounce, DEFAULT_VOWEL};
pub use classify::{classify_char, classify_word, Classified};
pub use report::{get_consonant_classes, report_classes};
pub use tables::{is_modifier, lookup_consonant, lookup_tone_marker, lookup_vowel};
pub use unit::{ConsonantClass, ThaiChar};
