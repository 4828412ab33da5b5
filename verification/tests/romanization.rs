use thai_phonetics::{
    assemble, classify_char, classify_word, concatenate, get_consonant_classes, pronounce,
    report_classes, Classified, ConsonantClass, ThaiChar, DEFAULT_VOWEL,
};

#[test]
fn empty_word_has_empty_romanization() {
    assert_eq!(pronounce(""), "");
}

#[test]
fn empty_word_has_empty_report() {
    assert_eq!(get_consonant_classes(""), "");
}

#[test]
fn khun_is_consonant_vowel_consonant() {
    assert_eq!(pronounce("คุณ"), "khun");
}

#[test]
fn longer_words_are_read_character_by_character() {
    assert_eq!(pronounce("สวัสดี"), "swasdi");
    assert_eq!(pronounce("กาบา"), "kaba");
    assert_eq!(pronounce("สวัสดีครับ"), "swasdikhrab");
}

#[test]
fn two_consonants_are_bridged() {
    assert_eq!(DEFAULT_VOWEL, 'o');
    assert_eq!(pronounce("กบ"), "kob");
    assert_eq!(pronounce("คน"), "khon");
    assert_eq!(pronounce("อก"), "ok");
}

#[test]
fn leading_vowel_is_read_after_the_first_consonant() {
    assert_eq!(pronounce("แมว"), "mɛw");
    assert_eq!(pronounce("ไทย"), "thaiy");
    assert_eq!(pronounce("โรค"), "rokh");
}

#[test]
fn tone_marks_contribute_their_diacritic_in_place() {
    assert_eq!(pronounce("แม่"), "ɛm\u{0300}");
    assert_eq!(pronounce("ม้า"), "m\u{0302}a");
    assert_eq!(pronounce("\u{0E4A}"), "\u{0301}");
    assert_eq!(pronounce("\u{0E4B}"), "\u{030C}");
}

#[test]
fn single_characters_fall_back() {
    assert_eq!(pronounce("ก"), "k");
    assert_eq!(pronounce("า"), "a");
    assert_eq!(pronounce("ห"), "h");
    assert_eq!(pronounce("อ"), "");
}

#[test]
fn three_characters_of_another_shape_fall_back() {
    assert_eq!(pronounce("กบด"), "kbd");
    assert_eq!(pronounce("กาา"), "kaa");
    assert_eq!(pronounce("กอบ"), "kb");
    assert_eq!(pronounce("หาก"), "hak");
}

#[test]
fn aspirates_are_not_consonants_for_the_patterns() {
    assert_eq!(pronounce("หก"), "hk");
    assert_eq!(pronounce("กห"), "kh");
    assert_eq!(pronounce("หาด"), "had");
    assert_eq!(pronounce("เหด"), "ehd");
}

#[test]
fn unrecognised_characters_pass_through() {
    assert_eq!(pronounce("x"), "x");
    assert_eq!(pronounce("hello"), "hello");
    assert_eq!(pronounce("ก ข"), "k kh");
    assert_eq!(pronounce("กx"), "kx");
    assert_eq!(pronounce("xก"), "xk");
    assert_eq!(pronounce("ก1ข"), "k1kh");
    assert_eq!(pronounce("ๆ"), "ๆ");
    assert_eq!(pronounce("é"), "é");
}

#[test]
fn report_keeps_one_code_for_each_character() {
    for word in ["", "ก", "คุณ", "สวัสดี", "แม่", "hello", "ก x ข", "ๆๆ", "ห้า"] {
        let report = get_consonant_classes(word);
        assert_eq!(report.chars().count(), word.chars().count());
    }
}

#[test]
fn report_marks_each_position() {
    assert_eq!(get_consonant_classes("แม่"), " L ");
    assert_eq!(get_consonant_classes("ห้า"), "   ");
    assert_eq!(get_consonant_classes("hello"), "     ");
    assert_eq!(get_consonant_classes("ก x ข"), "M   H");
    assert_eq!(get_consonant_classes("อ"), "M");
    assert_eq!(get_consonant_classes("ขกค"), "HML");
}

#[test]
fn class_letters() {
    assert_eq!(ConsonantClass::High.letter(), 'H');
    assert_eq!(ConsonantClass::Mid.letter(), 'M');
    assert_eq!(ConsonantClass::Low.letter(), 'L');
}

#[test]
fn units_give_their_text_and_class() {
    let kho = ThaiChar::C { class: ConsonantClass::Low, roman: "kh" };
    assert_eq!(kho.as_str(), "kh");
    assert_eq!(kho.class(), Some(ConsonantClass::Low));
    assert_eq!(ThaiChar::V("u").as_str(), "u");
    assert_eq!(ThaiChar::V("u").class(), None);
    assert_eq!(ThaiChar::T { tone: "\u{0300}" }.as_str(), "\u{0300}");
    assert_eq!(ThaiChar::T { tone: "\u{0300}" }.class(), None);
    assert_eq!(ThaiChar::M { roman: "h" }.as_str(), "h");
    assert_eq!(ThaiChar::M { roman: "h" }.class(), None);
}

#[test]
fn a_word_is_classified_character_by_character() {
    let word = "คุx";
    let units = classify_word(word);
    assert_eq!(units.len(), 3);
    for (unit, c) in units.iter().zip(word.chars()) {
        assert_eq!(unit.original, c);
        assert_eq!(unit.unit, classify_char(c));
    }
    assert_eq!(units[2], Classified { original: 'x', unit: None });
    assert!(classify_word("").is_empty());
}

#[test]
fn entries_know_their_shape_and_text() {
    let units = classify_word("กาx่ห");
    assert!(units[0].is_consonant() && !units[0].is_vowel());
    assert!(!units[1].is_consonant() && units[1].is_vowel());
    assert!(!units[2].is_consonant() && !units[2].is_vowel());
    assert!(!units[3].is_consonant() && !units[3].is_vowel());
    assert!(!units[4].is_consonant() && !units[4].is_vowel());
    let codes: Vec<char> = units.iter().map(|u| u.class_code()).collect();
    assert_eq!(codes, vec!['M', ' ', ' ', ' ', ' ']);
    let mut out = String::from(">");
    for unit in &units {
        unit.write_text(&mut out);
    }
    assert_eq!(out, ">kax\u{0300}h");
}

#[test]
fn assembly_goes_by_the_units_not_the_characters() {
    let n = Classified {
        original: '?',
        unit: Some(ThaiChar::C { class: ConsonantClass::Low, roman: "n" }),
    };
    let t = Classified {
        original: '?',
        unit: Some(ThaiChar::C { class: ConsonantClass::Mid, roman: "t" }),
    };
    let e = Classified { original: '?', unit: Some(ThaiChar::V("e")) };
    let stray = Classified { original: '!', unit: None };
    assert_eq!(assemble(&vec![]), "");
    assert_eq!(assemble(&vec![n, t]), "not");
    assert_eq!(assemble(&vec![n, e, t]), "net");
    assert_eq!(assemble(&vec![e, n, t]), "net");
    assert_eq!(assemble(&vec![n, t, e]), "nte");
    assert_eq!(assemble(&vec![n, stray]), "n!");
    assert_eq!(assemble(&vec![n, e, t, stray]), "net!");
    assert_eq!(concatenate(&vec![n, t]), "nt");
    assert_eq!(concatenate(&vec![e, n, t]), "ent");
    assert_eq!(report_classes(&vec![n, e, t, stray]), "L M ");
}

#[test]
fn the_same_word_always_gives_the_same_results() {
    for word in ["", "คุณ", "กบ", "แมว", "สวัสดี", "แม่", "hello"] {
        assert_eq!(pronounce(word), pronounce(word));
        assert_eq!(get_consonant_classes(word), get_consonant_classes(word));
    }
    let first = pronounce("คุณ");
    let _ = pronounce("สวัสดี");
    let _ = get_consonant_classes("แม่");
    assert_eq!(pronounce("คุณ"), first);
}
