use newsletter::domain::subscriber_name::{check_name, MAX_NAME_GRAPHEMES};
use newsletter::domain::{Reason, SubscriberName, ValidationError};

fn rejected(reason: Reason) -> ValidationError {
    ValidationError { reason }
}

#[test]
fn a_valid_name_is_parsed_successfully() {
    let name = SubscriberName::parse("Ursula Le Guin".to_string()).unwrap();
    assert_eq!(name.as_ref(), "Ursula Le Guin");
}

#[test]
fn a_name_is_stored_untrimmed() {
    let name = SubscriberName::parse("  le guin \t".to_string()).unwrap();
    assert_eq!(name.as_ref(), "  le guin \t");
}

#[test]
fn empty_string_is_rejected() {
    let parsed = SubscriberName::parse(String::new());
    assert_eq!(parsed.unwrap_err(), rejected(Reason::Empty));
}

#[test]
fn whitespace_only_names_are_rejected() {
    for text in [" ", "   ", "\t", "\n", "\r\n", " \t \n ", "\u{a0}", "\u{2003}\u{3000}", "\u{85}"] {
        let parsed = SubscriberName::parse(text.to_string());
        assert_eq!(parsed.unwrap_err(), rejected(Reason::Empty), "{:?}", text);
    }
}

#[test]
fn a_single_character_is_blank_exactly_when_it_is_whitespace() {
    for code in 0..=0x10ffffu32 {
        if let Some(c) = char::from_u32(code) {
            let parsed = SubscriberName::parse(c.to_string());
            let empty = matches!(parsed, Err(ValidationError { reason: Reason::Empty }));
            assert_eq!(empty, c.is_whitespace(), "U+{:04X}", code);
        }
    }
}

#[test]
fn a_256_grapheme_long_name_is_valid() {
    let text = "ё".repeat(256);
    let name = SubscriberName::parse(text.clone()).unwrap();
    assert_eq!(name.as_ref(), text);
}

#[test]
fn a_name_longer_than_256_graphemes_is_rejected() {
    let parsed = SubscriberName::parse("a".repeat(257));
    assert_eq!(parsed.unwrap_err(), rejected(Reason::TooLong));
    let parsed = SubscriberName::parse("ё".repeat(257));
    assert_eq!(parsed.unwrap_err(), rejected(Reason::TooLong));
}

#[test]
fn length_is_counted_in_graphemes_not_in_characters() {
    // Each "a" with a combining mark is two characters and one grapheme.
    let text = "a\u{310}".repeat(256);
    assert_eq!(text.chars().count(), 512);
    assert!(SubscriberName::parse(text).is_ok());
    let parsed = SubscriberName::parse("a\u{310}".repeat(257));
    assert_eq!(parsed.unwrap_err(), rejected(Reason::TooLong));
    // A line break of two characters is one grapheme.
    let text = format!("a{}", "\r\n".repeat(255));
    assert_eq!(text.chars().count(), 511);
    assert!(SubscriberName::parse(text).is_ok());
}

#[test]
fn names_containing_an_invalid_character_are_rejected() {
    for c in ['/', '(', ')', '"', '<', '>', '\\', '{', '}'] {
        let parsed = SubscriberName::parse(c.to_string());
        assert_eq!(parsed.unwrap_err(), rejected(Reason::ForbiddenCharacters), "{:?}", c);
        let parsed = SubscriberName::parse(format!("Ursula {} Le Guin", c));
        assert_eq!(parsed.unwrap_err(), rejected(Reason::ForbiddenCharacters), "{:?}", c);
    }
}

#[test]
fn other_punctuation_is_accepted() {
    for text in ["O'Brien", "Anne-Marie", "J. R. R. Tolkien", "[x]", "a|b", "50%", "a,b;c:d"] {
        let name = SubscriberName::parse(text.to_string()).unwrap();
        assert_eq!(name.as_ref(), text);
    }
}

#[test]
fn a_blank_name_is_empty_however_long_it_is() {
    let parsed = SubscriberName::parse(" ".repeat(257));
    assert_eq!(parsed.unwrap_err(), rejected(Reason::Empty));
}

#[test]
fn a_forbidden_character_is_reported_however_long_the_name_is() {
    let parsed = SubscriberName::parse("/".repeat(257));
    assert_eq!(parsed.unwrap_err(), rejected(Reason::ForbiddenCharacters));
    let parsed = SubscriberName::parse(format!("{}<", "a".repeat(300)));
    assert_eq!(parsed.unwrap_err(), rejected(Reason::ForbiddenCharacters));
}

#[test]
fn check_name_judges_by_the_count_it_is_given() {
    assert_eq!(MAX_NAME_GRAPHEMES, 256);
    assert_eq!(check_name("Ursula Le Guin", 14), Ok(()));
    assert_eq!(check_name("Ursula Le Guin", 256), Ok(()));
    assert_eq!(check_name("Ursula Le Guin", 257), Err(rejected(Reason::TooLong)));
    assert_eq!(check_name("", 0), Err(rejected(Reason::Empty)));
    assert_eq!(check_name("  ", 300), Err(rejected(Reason::Empty)));
    assert_eq!(check_name("a{b", 3), Err(rejected(Reason::ForbiddenCharacters)));
    assert_eq!(check_name("a{b", 300), Err(rejected(Reason::ForbiddenCharacters)));
}

#[test]
fn each_reason_has_its_text() {
    assert_eq!(Reason::Empty.as_str(), "empty");
    assert_eq!(Reason::TooLong.as_str(), "too_long");
    assert_eq!(Reason::ForbiddenCharacters.as_str(), "forbidden_characters");
    assert_eq!(Reason::InvalidSyntax.as_str(), "invalid_syntax");
    assert_eq!(ValidationError::new(Reason::TooLong).message(), "too_long");
    assert_eq!(ValidationError::new(Reason::Empty), rejected(Reason::Empty));
}
