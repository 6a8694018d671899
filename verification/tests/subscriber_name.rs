use z2p::domain::subscriber_name::{contains_forbidden_char, satisfies_name_rules};
use z2p::domain::SubscriberName;
use z2p::routes::is_valid;
use z2p::text::{is_blank_str, is_whitespace_char};

#[test]
fn a_256_grapheme_name_is_valid() {
    let name = "ë".repeat(256);
    assert!(SubscriberName::parse(name).is_ok());
}

#[test]
fn a_name_longer_than_256_chars_is_rejected() {
    let name = "a".repeat(257);
    assert!(SubscriberName::parse(name).is_err());
}

#[test]
fn whitespace_only_names_are_rejected() {
    let name = " ".to_string();
    assert!(SubscriberName::parse(name).is_err());
}

#[test]
fn empty_string_is_rejected() {
    let name = "".to_string();
    assert!(SubscriberName::parse(name).is_err());
}

#[test]
fn name_containing_invalid_characters_are_rejected() {
    for name in &['/', '(', ')', '"', '<', '>', '\\', '{', '}'] {
        let name = name.to_string();
        assert!(SubscriberName::parse(name).is_err());
    }
}

#[test]
fn a_valid_name_is_parsed_successfully() {
    let name = "Ursula Le Guin".to_string();
    assert!(SubscriberName::parse(name).is_ok());
}

#[test]
fn a_256_grapheme_name_of_several_code_points_each_is_valid() {
    let name = "e\u{301}".repeat(256);
    assert_eq!(name.chars().count(), 512);
    assert!(SubscriberName::parse(name).is_ok());
}

#[test]
fn a_257_grapheme_name_is_rejected() {
    let name = "e\u{301}".repeat(257);
    assert!(SubscriberName::parse(name).is_err());
}

#[test]
fn a_257_character_name_of_256_graphemes_is_valid() {
    let mut name = "a".repeat(255);
    name.push_str("\r\n");
    assert_eq!(name.chars().count(), 257);
    assert!(SubscriberName::parse(name).is_ok());
    let mut longer = "a".repeat(256);
    longer.push_str("\r\n");
    assert_eq!(longer.chars().count(), 258);
    assert!(SubscriberName::parse(longer).is_err());
}

#[test]
fn the_parsed_name_is_the_input_without_the_white_space_around_it() {
    let parsed = SubscriberName::parse(" Ursula Le Guin ".to_string()).unwrap();
    assert_eq!(parsed.as_ref(), "Ursula Le Guin");
    assert_eq!(parsed.as_str(), "Ursula Le Guin");
    let parsed = SubscriberName::parse(" a ".to_string()).unwrap();
    assert_eq!(parsed.as_ref(), "a");
    let parsed = SubscriberName::parse("\u{3000}\t le  guin\r\n\u{a0}".to_string()).unwrap();
    assert_eq!(parsed.as_ref(), "le  guin");
    let parsed = SubscriberName::parse("le guin".to_string()).unwrap();
    assert_eq!(parsed.as_ref(), "le guin");
}

#[test]
fn the_parsed_name_is_what_trimming_leaves() {
    for name in ["x", " x", "x ", "\n\nx y\n", "\u{2003}ë\u{2003}", "\u{feff}x\u{200b}", "a\u{85}"] {
        let parsed = SubscriberName::parse(name.to_string()).unwrap();
        assert_eq!(parsed.as_ref(), name.trim());
        assert!(!parsed.as_ref().is_empty());
        assert!(!parsed.as_ref().starts_with(char::is_whitespace));
        assert!(!parsed.as_ref().ends_with(char::is_whitespace));
    }
}

#[test]
fn the_length_of_a_name_is_judged_before_it_is_trimmed() {
    let mut name = "a".repeat(256);
    name.push(' ');
    assert!(SubscriberName::parse(name).is_err());
    let mut name = "a".repeat(255);
    name.push(' ');
    assert_eq!(SubscriberName::parse(name).unwrap().as_ref(), "a".repeat(255));
}

#[test]
fn the_rejection_names_the_input() {
    let error = SubscriberName::parse("a/b".to_string()).unwrap_err();
    assert_eq!(error, "a/b is not a valid subscriber name.");
    let error = SubscriberName::parse("".to_string()).unwrap_err();
    assert_eq!(error, " is not a valid subscriber name.");
}

#[test]
fn names_of_unicode_white_space_only_are_rejected() {
    for blank in ["\t", "\n \r", "\u{a0}", "\u{2003}\u{3000}", "\u{85}\u{1680}\u{2028}\u{2029}\u{202f}\u{205f}"] {
        assert!(SubscriberName::parse(blank.to_string()).is_err());
        assert!(!is_valid(blank));
    }
    assert!(SubscriberName::parse("\u{200b}".to_string()).is_ok());
}

#[test]
fn a_forbidden_character_anywhere_rejects_the_name() {
    for forbidden in ['/', '(', ')', '"', '<', '>', '\\', '{', '}'] {
        let name = format!("Ursula{}Le Guin", forbidden);
        assert!(contains_forbidden_char(&name));
        assert!(SubscriberName::parse(name).is_err());
    }
    assert!(!contains_forbidden_char("Ursula [Le] Guin-O'Neil, Jr."));
}

#[test]
fn is_valid_agrees_with_parse() {
    let long = "a".repeat(257);
    for name in ["Ursula Le Guin", "le guin", "", " ", "a<b", long.as_str(), "ë"] {
        assert_eq!(is_valid(name), SubscriberName::parse(name.to_string()).is_ok());
    }
}

#[test]
fn the_name_rules_count_graphemes_as_given() {
    assert!(satisfies_name_rules("Ursula", 6));
    assert!(satisfies_name_rules("Ursula", 256));
    assert!(!satisfies_name_rules("Ursula", 257));
    assert!(!satisfies_name_rules("   ", 3));
    assert!(!satisfies_name_rules("", 0));
    assert!(!satisfies_name_rules("Urs{ula", 7));
}

#[test]
fn white_space_is_what_the_standard_library_calls_white_space() {
    for code in 0u32..=0x10FFFF {
        if let Some(c) = char::from_u32(code) {
            assert_eq!(is_whitespace_char(c), c.is_whitespace());
        }
    }
}

#[test]
fn blank_is_empty_after_trimming() {
    for text in ["", " ", "\t\n", " a ", "a", "\u{3000}", "\u{3000}x\u{3000}", "\u{feff}"] {
        assert_eq!(is_blank_str(text), text.trim().is_empty());
    }
}
