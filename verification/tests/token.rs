use z2p::token::{
    generate_subscription_token, is_token_character, is_well_formed, token_from_samples,
    TOKEN_LENGTH,
};

#[test]
fn a_generated_token_has_25_letters_and_digits() {
    for _ in 0..200 {
        let token = generate_subscription_token();
        assert_eq!(token.len(), 25);
        assert_eq!(token.chars().count(), TOKEN_LENGTH);
        assert!(token.chars().all(|c| c.is_ascii_alphanumeric()));
        assert!(is_well_formed(&token));
    }
}

#[test]
fn generated_tokens_differ() {
    let first = generate_subscription_token();
    let second = generate_subscription_token();
    assert_ne!(first, second);
}

#[test]
fn a_generated_token_is_not_one_character_repeated() {
    let token = generate_subscription_token();
    let first = token.chars().next().unwrap();
    let other = generate_subscription_token();
    assert!(token.chars().any(|c| c != first) || other.chars().any(|c| c != first));
}

#[test]
fn a_token_is_the_text_of_its_samples() {
    let samples = b"abcdefghijklmnopqrstuvwxy".to_vec();
    assert_eq!(token_from_samples(&samples), Some("abcdefghijklmnopqrstuvwxy".to_string()));
    let samples = b"0123456789ABCDEFGHIJXYZaz".to_vec();
    assert_eq!(token_from_samples(&samples), Some("0123456789ABCDEFGHIJXYZaz".to_string()));
}

#[test]
fn samples_of_the_wrong_number_or_kind_give_no_token() {
    assert_eq!(token_from_samples(&b"abc".to_vec()), None);
    assert_eq!(token_from_samples(&Vec::new()), None);
    assert_eq!(token_from_samples(&b"abcdefghijklmnopqrstuvwxyz".to_vec()), None);
    assert_eq!(token_from_samples(&b"abcdefghijklmnopqrstuvwx-".to_vec()), None);
    assert_eq!(token_from_samples(&b"abcdefghijkl nopqrstuvwxy".to_vec()), None);
    let mut high = b"abcdefghijklmnopqrstuvwxy".to_vec();
    high[3] = 0xE9;
    assert_eq!(token_from_samples(&high), None);
}

#[test]
fn token_characters_are_ascii_letters_and_digits() {
    for code in 0u32..=0x10FFFF {
        if let Some(c) = char::from_u32(code) {
            assert_eq!(is_token_character(c), c.is_ascii_alphanumeric());
        }
    }
}

#[test]
fn well_formed_tokens_are_not_empty_and_url_safe() {
    assert!(is_well_formed("abc123XYZ"));
    assert!(is_well_formed("a"));
    assert!(!is_well_formed(""));
    assert!(!is_well_formed("abc def"));
    assert!(!is_well_formed("abc&def"));
    assert!(!is_well_formed("abc%20"));
    assert!(!is_well_formed("tok\u{e9}n"));
}
