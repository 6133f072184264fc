use password_gen::dictionary::Dictionary;
use password_gen::password_generator::{
    filter_by_policy, judge_draw, select_random_value, DrawStep, MAX_CONSECUTIVE_REJECTIONS,
};
use password_gen::{CharSet, ConfigurationError, ParseCharSetError, PasswordGenerator, PasswordOptions};

fn generate(generator: &mut PasswordGenerator, options: &PasswordOptions) -> String {
    generator.generate_password(options).unwrap()
}

#[test]
fn correct_length() {
    let mut generator = PasswordGenerator::new();
    let options = PasswordOptions::new(12, CharSet::Ascii);
    let options2 = PasswordOptions::new(13, CharSet::AsciiExtended);
    let options3 = PasswordOptions::new(14, CharSet::Numbers);
    let options4 = PasswordOptions::new(15, CharSet::Alphanumeric);
    let password = generate(&mut generator, &options);
    let password2 = generate(&mut generator, &options2);
    let password3 = generate(&mut generator, &options3);
    let password4 = generate(&mut generator, &options4);
    assert_eq!(password.chars().count(), 12);
    assert_eq!(password2.chars().count(), 13);
    assert_eq!(password3.chars().count(), 14);
    assert_eq!(password4.chars().count(), 15);
}

#[test]
fn it_generates_an_xkcd_password() {
    let mut generator = PasswordGenerator::new();
    let options = PasswordOptions::new(3, CharSet::Xkcd);
    let password = generate(&mut generator, &options);
    assert!(password.chars().count() > 3 as usize);
}

#[test]
fn it_generates_pin() {
    let options = PasswordOptions::new(4, CharSet::Numbers);
    let mut generator = PasswordGenerator::new();
    let password = generate(&mut generator, &options);
    for c in password.chars() {
        assert!(c.is_numeric())
    }
}

#[test]
fn it_generates_alphanumeric() {
    let options = PasswordOptions::new(10, CharSet::Alphanumeric);
    let mut generator = PasswordGenerator::new();
    let password = generate(&mut generator, &options);
    for c in password.chars() {
        assert!(c.is_alphanumeric())
    }
}

#[test]
fn character_modes_give_exact_lengths() {
    let mut generator = PasswordGenerator::new();
    let sets = [
        CharSet::Ascii,
        CharSet::AsciiExtended,
        CharSet::Unicode,
        CharSet::Numbers,
        CharSet::Alphanumeric,
    ];
    for cs in sets {
        for n in [0u32, 1, 10, 100] {
            let password = generate(&mut generator, &PasswordOptions::new(n, cs));
            assert_eq!(password.chars().count(), n as usize);
        }
    }
}

#[test]
fn zero_length_is_empty_for_every_set() {
    let mut generator = PasswordGenerator::new();
    let sets = [
        CharSet::Ascii,
        CharSet::AsciiExtended,
        CharSet::Unicode,
        CharSet::Xkcd,
        CharSet::Numbers,
        CharSet::Alphanumeric,
    ];
    for cs in sets {
        assert_eq!(generate(&mut generator, &PasswordOptions::new(0, cs)), "");
        let strict = PasswordOptions::with_flags(0, cs, true, false);
        assert_eq!(generate(&mut generator, &strict), "");
    }
}

#[test]
fn numbers_are_ascii_digits() {
    let mut generator = PasswordGenerator::new();
    let password = generate(&mut generator, &PasswordOptions::new(500, CharSet::Numbers));
    assert!(password.chars().all(|c| c.is_ascii_digit()));
}

#[test]
fn alphanumeric_set_is_ascii_letters_and_digits() {
    let mut generator = PasswordGenerator::new();
    let password = generate(&mut generator, &PasswordOptions::new(500, CharSet::Alphanumeric));
    assert!(password.chars().all(|c| c.is_ascii_alphanumeric()));
}

#[test]
fn alphanumeric_only_holds_for_every_set() {
    let mut generator = PasswordGenerator::new();
    let sets = [
        CharSet::Ascii,
        CharSet::AsciiExtended,
        CharSet::Unicode,
        CharSet::Numbers,
        CharSet::Alphanumeric,
    ];
    for cs in sets {
        let options = PasswordOptions::with_flags(300, cs, true, true);
        let password = generate(&mut generator, &options);
        assert_eq!(password.chars().count(), 300);
        assert!(password.chars().all(|c| c.is_alphanumeric()));
    }
}

#[test]
fn extended_set_without_policy_has_symbols() {
    let mut generator = PasswordGenerator::new();
    let password = generate(&mut generator, &PasswordOptions::new(2000, CharSet::AsciiExtended));
    assert!(password.chars().any(|c| !c.is_alphanumeric()));
    assert!(password.chars().any(|c| (c as u32) >= 0xA0));
    assert!(password.chars().all(|c| (0x21..=0x7E).contains(&(c as u32)) || (0xA1..=0xFF).contains(&(c as u32))));
}

#[test]
fn whitespace_left_out_by_default() {
    let mut generator = PasswordGenerator::new();
    let sets = [CharSet::Ascii, CharSet::AsciiExtended, CharSet::Unicode];
    for cs in sets {
        let password = generate(&mut generator, &PasswordOptions::new(5000, cs));
        assert!(!password.chars().any(|c| c.is_whitespace()));
    }
}

#[test]
fn whitespace_included_on_request() {
    let mut generator = PasswordGenerator::new();
    let options = PasswordOptions::with_flags(20000, CharSet::Ascii, false, true);
    let password = generate(&mut generator, &options);
    assert!(password.contains(' '));
}

#[test]
fn ascii_characters_are_printable() {
    let mut generator = PasswordGenerator::new();
    let password = generate(&mut generator, &PasswordOptions::new(10000, CharSet::Ascii));
    assert_eq!(password.chars().count(), 10000);
    for c in password.chars() {
        assert!(!c.is_control());
        assert!((0x20..=0x7E).contains(&(c as u32)));
    }
}

#[test]
fn unicode_characters_are_not_control() {
    let mut generator = PasswordGenerator::new();
    let password = generate(&mut generator, &PasswordOptions::new(2000, CharSet::Unicode));
    assert!(password.chars().all(|c| !c.is_control()));
    assert!(password.chars().any(|c| (c as u32) > 0xFF));
}

fn split_passphrase(password: &str) -> (Vec<String>, Option<String>) {
    let sep = password.chars().find(|c| !c.is_ascii_alphabetic()).map(|c| c.to_string());
    let words = match &sep {
        Some(s) => password.split(s.as_str()).map(|w| w.to_string()).collect(),
        None => vec![password.to_string()],
    };
    (words, sep)
}

#[test]
fn passphrase_has_words_and_one_separator() {
    let dictionary = Dictionary::new();
    let mut generator = PasswordGenerator::new();
    for n in [2u32, 3, 6] {
        let password = generate(&mut generator, &PasswordOptions::new(n, CharSet::Xkcd));
        let (words, sep) = split_passphrase(&password);
        let sep = sep.unwrap();
        assert!(dictionary.separators().contains(&sep.as_str()));
        assert_eq!(password.matches(sep.as_str()).count(), n as usize - 1);
        assert_eq!(words.len(), n as usize);
        for w in words {
            let lower = w.to_lowercase();
            assert!(dictionary.words().contains(&lower.as_str()));
            assert!(w == lower || w == lower.to_uppercase());
        }
    }
}

#[test]
fn single_word_passphrase_has_no_separator() {
    let dictionary = Dictionary::new();
    let mut generator = PasswordGenerator::new();
    let password = generate(&mut generator, &PasswordOptions::new(1, CharSet::Xkcd));
    assert!(password.chars().all(|c| c.is_ascii_alphabetic()));
    assert!(dictionary.words().contains(&password.to_lowercase().as_str()));
}

#[test]
fn passphrase_words_are_sometimes_upper_case() {
    let mut generator = PasswordGenerator::new();
    let mut upper = false;
    let mut lower = false;
    for _ in 0..20 {
        let password = generate(&mut generator, &PasswordOptions::new(5, CharSet::Xkcd));
        upper = upper || password.chars().any(|c| c.is_ascii_uppercase());
        lower = lower || password.chars().any(|c| c.is_ascii_lowercase());
    }
    assert!(upper);
    assert!(lower);
}

#[test]
fn parses_names_in_any_case() {
    assert_eq!(CharSet::from_name("ascii"), Ok(CharSet::Ascii));
    assert_eq!(CharSet::from_name("ASCII"), Ok(CharSet::Ascii));
    assert_eq!(CharSet::from_name("AsciiExtended"), Ok(CharSet::AsciiExtended));
    assert_eq!(CharSet::from_name("numbers"), Ok(CharSet::Numbers));
    assert_eq!(CharSet::from_name("alphanumeric"), Ok(CharSet::Alphanumeric));
    assert_eq!(CharSet::from_name("XKCD"), Ok(CharSet::Xkcd));
    assert_eq!(CharSet::from_name("passphrase"), Ok(CharSet::Xkcd));
    assert_eq!(CharSet::from_name("bogus"), Err(ParseCharSetError {}));
}

#[test]
fn from_str_uses_the_same_names() {
    assert_eq!("ASCII".parse::<CharSet>(), Ok(CharSet::Ascii));
    assert_eq!("Numbers".parse::<CharSet>(), Ok(CharSet::Numbers));
    assert_eq!("bogus".parse::<CharSet>(), Err(ParseCharSetError {}));
}

#[test]
fn lowered_names_must_already_be_lower_case() {
    assert_eq!(CharSet::parse_lowered("alphanumeric"), Ok(CharSet::Alphanumeric));
    assert_eq!(CharSet::parse_lowered("Alphanumeric"), Err(ParseCharSetError {}));
    assert_eq!(CharSet::parse_lowered(""), Err(ParseCharSetError {}));
    assert_eq!(CharSet::parse_lowered("unicode"), Err(ParseCharSetError {}));
}

#[test]
fn error_messages() {
    assert_eq!(
        ParseCharSetError {}.message(),
        "String did not match ascii, asciiextended, xkcd, passphrase, numbers or alphanumeric"
    );
    assert_eq!(
        ConfigurationError {}.message(),
        "no character satisfies the requested constraints"
    );
}

#[test]
fn options_constructors() {
    let options = PasswordOptions::new(7, CharSet::Numbers);
    assert_eq!(options.min_length, 7);
    assert_eq!(options.character_set, CharSet::Numbers);
    assert!(!options.alphanumeric_only);
    assert!(!options.include_whitespace);
    let flagged = PasswordOptions::with_flags(9, CharSet::Unicode, true, true);
    assert_eq!(flagged.min_length, 9);
    assert_eq!(flagged.character_set, CharSet::Unicode);
    assert!(flagged.alphanumeric_only);
    assert!(flagged.include_whitespace);
}

#[test]
fn policy_admits_by_flags() {
    let plain = PasswordOptions::new(1, CharSet::Ascii);
    assert!(plain.admits(false, false, false));
    assert!(!plain.admits(true, false, true));
    assert!(!plain.admits(false, true, false));
    let strict = PasswordOptions::with_flags(1, CharSet::Ascii, true, true);
    assert!(strict.admits(false, true, true));
    assert!(!strict.admits(false, false, false));
    assert!(plain.admits_char('a'));
    assert!(!plain.admits_char(' '));
    assert!(!plain.admits_char('\u{7}'));
    assert!(strict.admits_char('\u{e9}'));
    assert!(!strict.admits_char('#'));
    assert!(PasswordOptions::with_flags(1, CharSet::Ascii, false, true).admits_char(' '));
}

#[test]
fn universes_have_expected_sizes() {
    let dictionary = Dictionary::new();
    assert_eq!(dictionary.list_from_charset(CharSet::Ascii).unwrap().len(), 95);
    assert_eq!(dictionary.list_from_charset(CharSet::AsciiExtended).unwrap().len(), 191);
    assert_eq!(dictionary.list_from_charset(CharSet::Numbers).unwrap(), "0123456789".chars().collect::<Vec<char>>());
    assert_eq!(dictionary.list_from_charset(CharSet::Alphanumeric).unwrap().len(), 62);
    assert_eq!(dictionary.list_from_charset(CharSet::Unicode), None);
    assert_eq!(dictionary.list_from_charset(CharSet::Xkcd), None);
    assert!(!dictionary.words().is_empty());
    assert!(!dictionary.separators().is_empty());
    assert!(dictionary.words().iter().all(|w| !w.is_empty()));
}

#[test]
fn policy_filter_keeps_order() {
    let dictionary = Dictionary::new();
    let base = dictionary.list_from_charset(CharSet::Ascii).unwrap();
    let plain = filter_by_policy(&PasswordOptions::new(1, CharSet::Ascii), &base);
    assert_eq!(plain.len(), 94);
    assert_eq!(plain[0], '!');
    let strict = filter_by_policy(&PasswordOptions::with_flags(1, CharSet::Ascii, true, false), &base);
    let expected: Vec<char> = ('0'..='9').chain('A'..='Z').chain('a'..='z').collect();
    assert_eq!(strict, expected);
    let extended = dictionary.list_from_charset(CharSet::AsciiExtended).unwrap();
    let strict_ext = filter_by_policy(&PasswordOptions::with_flags(1, CharSet::AsciiExtended, true, false), &extended);
    assert!(strict_ext.contains(&'\u{e9}'));
    assert!(!strict_ext.contains(&'\u{a0}'));
}

#[test]
fn select_random_value_returns_an_element() {
    let values: Vec<u32> = vec![1, 2, 3, 4, 5];
    let mut rng = rand::thread_rng();
    for _ in 0..50 {
        let v = *select_random_value(&values, &mut rng);
        assert!(values.contains(&v));
    }
    let single = [42u8];
    assert_eq!(*select_random_value(&single, &mut rng), 42);
}

#[test]
fn judge_draw_accepts_retries_and_gives_up() {
    let unicode = PasswordOptions::new(1, CharSet::Unicode);
    assert_eq!(judge_draw(&unicode, '\u{e9}', 0), DrawStep::Accept('\u{e9}'));
    assert_eq!(judge_draw(&unicode, '\u{7}', 0), DrawStep::Retry(1));
    assert_eq!(judge_draw(&unicode, ' ', 41), DrawStep::Retry(42));
    assert_eq!(judge_draw(&unicode, '\u{3000}', 5), DrawStep::Retry(6));
    assert_eq!(judge_draw(&unicode, '\u{85}', MAX_CONSECUTIVE_REJECTIONS - 1), DrawStep::GiveUp);
    assert_eq!(judge_draw(&unicode, 'x', MAX_CONSECUTIVE_REJECTIONS - 1), DrawStep::Accept('x'));
    let strict = PasswordOptions::with_flags(1, CharSet::Unicode, true, false);
    assert_eq!(judge_draw(&strict, '#', 0), DrawStep::Retry(1));
    assert_eq!(judge_draw(&strict, '\u{85d7}', 0), DrawStep::Accept('\u{85d7}'));
    let digits = PasswordOptions::new(1, CharSet::Numbers);
    assert_eq!(judge_draw(&digits, 'a', 0), DrawStep::Retry(1));
    assert_eq!(judge_draw(&digits, '7', 3), DrawStep::Accept('7'));
}

#[test]
fn dictionary_entries_are_nonempty_and_disjoint() {
    let dictionary = Dictionary::new();
    assert_eq!(dictionary.words().len(), 256);
    assert_eq!(dictionary.separators().len(), 12);
    assert!(dictionary.separators().iter().all(|s| !s.is_empty()));
    for s in dictionary.separators() {
        assert!(!dictionary.words().contains(s));
    }
    assert_eq!(dictionary.words()[0], "able");
    assert_eq!(dictionary.separators()[0], "-");
}

#[test]
fn listable_sets_succeed_under_every_policy() {
    let mut generator = PasswordGenerator::new();
    let sets = [CharSet::Ascii, CharSet::AsciiExtended, CharSet::Numbers, CharSet::Alphanumeric];
    for cs in sets {
        for (alnum, ws) in [(false, false), (true, false), (false, true), (true, true)] {
            let options = PasswordOptions::with_flags(20, cs, alnum, ws);
            assert_eq!(generator.generate_password(&options).unwrap().chars().count(), 20);
        }
    }
}
