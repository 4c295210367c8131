use crazy_train::generator::{symbol, StringDef, SYMBOLS};
use crazy_train::randomizer::Randomizer;

#[test]
fn has_unicode() {
    assert!(!StringDef::contains_unicode("test"));
    assert!(StringDef::contains_unicode("🙆test"));
}

#[test]
fn has_symbols() {
    assert!(!StringDef::contains_symbols("test"));
    assert!(StringDef::contains_symbols("test#"));
}

#[test]
fn has_numbers() {
    assert!(!StringDef::contains_numbers("test"));
    assert!(StringDef::contains_numbers("test1"));
}

#[test]
fn has_capital_letters() {
    assert!(!StringDef::contains_capital_letters("test"));
    assert!(StringDef::contains_capital_letters("Test1"));
}

#[test]
fn string_def_default() {
    let string_def = StringDef::default();
    let mut randomizer = Randomizer::with_seed(42);
    assert_eq!(string_def.generate(&mut randomizer), "noqkak");
    assert_eq!(string_def.generate(&mut randomizer), "twdayn");
    assert_eq!(string_def.generate(&mut randomizer), "kdnfan");
}

#[test]
fn string_def_with_length() {
    let string_def = StringDef {
        length: 10,
        include_unicode: false,
        include_symbol: false,
        include_capital_letters: false,
        include_numbers: false,
    };
    let mut rand = Randomizer::with_seed(42);
    assert_eq!(string_def.generate(&mut rand), "noqkaktwda");
    assert_eq!(string_def.generate(&mut rand), "ynkdnfanbq");
    assert_eq!(string_def.generate(&mut rand), "vmnbjlufkr");
}

#[test]
fn string_def_include_unicode() {
    let string_def = StringDef {
        length: 6,
        include_unicode: true,
        include_symbol: false,
        include_capital_letters: false,
        include_numbers: false,
    };
    let mut rand = Randomizer::with_seed(42);
    assert_eq!(string_def.generate(&mut rand), "😩oqkak");
    assert_eq!(string_def.generate(&mut rand), "t🙃dayn");
    assert_eq!(string_def.generate(&mut rand), "kdnfa😩");
}

#[test]
fn string_def_include_symbol() {
    let string_def = StringDef {
        length: 6,
        include_unicode: false,
        include_symbol: true,
        include_capital_letters: false,
        include_numbers: false,
    };
    let mut rand = Randomizer::with_seed(42);
    assert_eq!(string_def.generate(&mut rand), "\"eq)a)");
    assert_eq!(string_def.generate(&mut rand), "=wqf`g");
    assert_eq!(string_def.generate(&mut rand), "/uzw=d");
}

#[test]
fn string_def_include_capital_letters() {
    let string_def = StringDef {
        length: 6,
        include_unicode: false,
        include_symbol: false,
        include_capital_letters: true,
        include_numbers: false,
    };
    let mut rand = Randomizer::with_seed(42);
    assert_eq!(string_def.generate(&mut rand), "NOqkak");
    assert_eq!(string_def.generate(&mut rand), "TWdAyN");
    assert_eq!(string_def.generate(&mut rand), "kdnfaN");
}

#[test]
fn string_def_include_numbers() {
    let string_def = StringDef {
        length: 6,
        include_unicode: false,
        include_symbol: false,
        include_capital_letters: false,
        include_numbers: true,
    };
    let mut rand = Randomizer::with_seed(42);
    assert_eq!(string_def.generate(&mut rand), "55qka4");
    assert_eq!(string_def.generate(&mut rand), "7810y5");
    assert_eq!(string_def.generate(&mut rand), "k1nf05");
}

#[test]
fn default_definition() {
    let def = StringDef::default();
    assert_eq!(def.length, 6);
    assert!(!def.include_unicode);
    assert!(!def.include_symbol);
    assert!(!def.include_capital_letters);
    assert!(!def.include_numbers);
}

#[test]
fn only_lowercase() {
    assert!(StringDef::contains_only_lowercase("test"));
    assert!(!StringDef::contains_only_lowercase("1test"));
    assert!(!StringDef::contains_only_lowercase("🙆test"));
    assert!(!StringDef::contains_only_lowercase("#test"));
    assert!(!StringDef::contains_only_lowercase("Test"));
    assert!(StringDef::contains_only_lowercase(""));
}

#[test]
fn only_lowercase_is_none_of_the_other_four() {
    let samples = [
        "", "abc", "aBc", "a1", "a½", "a-b", "a\\b", "añb", "Ω", "٣", " ", "a b", "🙆",
    ];
    for s in samples {
        let none = !StringDef::contains_unicode(s)
            && !StringDef::contains_symbols(s)
            && !StringDef::contains_numbers(s)
            && !StringDef::contains_capital_letters(s);
        assert_eq!(StringDef::contains_only_lowercase(s), none);
    }
}

#[test]
fn predicates_look_at_every_character() {
    assert!(StringDef::contains_unicode("testé"));
    assert!(StringDef::contains_unicode("te🙆st"));
    assert!(!StringDef::contains_unicode("Test #1 ~"));
    assert!(StringDef::contains_symbols("te~st"));
    assert!(StringDef::contains_symbols("\\"));
    assert!(!StringDef::contains_symbols("te st"));
    assert!(StringDef::contains_numbers("٣"));
    assert!(StringDef::contains_numbers("a½"));
    assert!(StringDef::contains_capital_letters("teSt"));
    assert!(StringDef::contains_capital_letters("Ω"));
    assert!(!StringDef::contains_capital_letters("ω"));
}

#[test]
fn symbols_are_the_ascii_punctuation() {
    assert_eq!(SYMBOLS.chars().count(), 33);
    for c in '\0'..='\u{ff}' {
        assert_eq!(symbol(c), c.is_ascii_punctuation());
        assert_eq!(symbol(c), SYMBOLS.contains(c));
    }
    assert!(!symbol('🙆'));
    assert_eq!(SYMBOLS.matches('\\').count(), 2);
}

#[test]
fn from_randomizer_draws_five_times() {
    let mut randomizer = Randomizer::with_seed(42);
    let def = StringDef::from_randomizer(&mut randomizer);
    assert_eq!(def.length, 27);
    assert!(!def.include_unicode);
    assert!(!def.include_symbol);
    assert!(!def.include_capital_letters);
    assert!(!def.include_numbers);
    let mut again = Randomizer::with_seed(42);
    for _ in 0..5 {
        again.bool();
    }
    assert_eq!(randomizer.bool(), again.bool());
    assert_eq!(randomizer.number_between(0, 1000), again.number_between(0, 1000));
}

#[test]
fn from_randomizer_stays_in_range() {
    let mut randomizer = Randomizer::with_seed(9);
    for _ in 0..200 {
        let def = StringDef::from_randomizer(&mut randomizer);
        assert!((1..=50).contains(&def.length));
    }
}

#[test]
fn length_counts_characters() {
    let mut randomizer = Randomizer::with_seed(1);
    for round in 0..300 {
        let def = StringDef::from_randomizer(&mut randomizer);
        let text = def.generate(&mut randomizer);
        assert_eq!(text.chars().count() as u32, def.length, "round {}", round);
    }
    let emoji = StringDef {
        length: 40,
        include_unicode: true,
        include_symbol: false,
        include_capital_letters: false,
        include_numbers: false,
    };
    let text = emoji.generate(&mut randomizer);
    assert_eq!(text.chars().count(), 40);
    assert!(text.len() > 40);
}

#[test]
fn empty_string_takes_no_draw() {
    let nothing = StringDef {
        length: 0,
        ..StringDef::default()
    };
    let mut randomizer = Randomizer::with_seed(42);
    assert_eq!(nothing.generate(&mut randomizer), "");
    assert_eq!(randomizer.number_between(1, 100), 27);
}

#[test]
fn switches_let_classes_in() {
    let mut randomizer = Randomizer::with_seed(2);
    for round in 0..16u32 {
        let def = StringDef {
            length: 200,
            include_unicode: round & 1 != 0,
            include_symbol: round & 2 != 0,
            include_capital_letters: round & 4 != 0,
            include_numbers: round & 8 != 0,
        };
        let text = def.generate(&mut randomizer);
        assert!(text.chars().any(|c| c.is_ascii_lowercase()));
        assert_eq!(StringDef::contains_unicode(&text), def.include_unicode);
        assert_eq!(StringDef::contains_symbols(&text), def.include_symbol);
        assert_eq!(
            StringDef::contains_capital_letters(&text),
            def.include_capital_letters
        );
        assert_eq!(StringDef::contains_numbers(&text), def.include_numbers);
        for c in text.chars() {
            let emoji = ('\u{1F600}'..'\u{1F64F}').contains(&c);
            assert!(
                c.is_ascii_lowercase()
                    || (def.include_unicode && emoji)
                    || (def.include_symbol && c.is_ascii_punctuation())
                    || (def.include_capital_letters && c.is_ascii_uppercase())
                    || (def.include_numbers && c.is_ascii_digit())
            );
        }
    }
}

#[test]
fn disabled_class_falls_through_to_the_next() {
    let numbers = StringDef {
        include_numbers: true,
        ..StringDef::default()
    };
    let mut randomizer = Randomizer::with_seed(42);
    assert_eq!(numbers.generate(&mut randomizer), "55qka4");
    let capitals = StringDef {
        include_capital_letters: true,
        ..StringDef::default()
    };
    let mut randomizer = Randomizer::with_seed(42);
    assert_eq!(capitals.generate(&mut randomizer), "NOqkak");
}
