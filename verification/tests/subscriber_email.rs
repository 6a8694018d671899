use z2p::domain::subscriber_email::email_verdict;
use z2p::domain::SubscriberEmail;

#[test]
fn empty_email_is_rejected() {
    let email = "".to_string();
    assert!(SubscriberEmail::parse(email).is_err());
}

#[test]
fn email_missing_at_symbol_is_rejected() {
    let email = "ursuladomain.com".to_string();
    assert!(SubscriberEmail::parse(email).is_err());
}

#[test]
fn email_missing_subject_is_rejected() {
    let email = "@domain.com".to_string();
    assert!(SubscriberEmail::parse(email).is_err());
}

#[test]
fn valid_emails_are_parsed_successfully() {
    for email in ["ursula_le_guin@gmail.com", "email@here.com", "a.b-c+d@sub.example.org"] {
        let parsed = SubscriberEmail::parse(email.to_string()).unwrap();
        assert_eq!(parsed.as_ref(), email);
        assert_eq!(parsed.as_str(), email);
    }
}

#[test]
fn malformed_emails_are_rejected() {
    for email in ["definitely-not-an-email", "a @x.cz", "abc@.com", "something@@somewhere.com", "abc@"] {
        assert!(SubscriberEmail::parse(email.to_string()).is_err());
    }
}

#[test]
fn the_email_rejection_names_the_input() {
    let error = SubscriberEmail::parse("definitely-not-an-email".to_string()).unwrap_err();
    assert_eq!(error, "definitely-not-an-email is not a valid subscriber email.");
}

#[test]
fn a_copy_of_an_email_reads_the_same() {
    let email = SubscriberEmail::parse("ursula_le_guin@gmail.com".to_string()).unwrap();
    let copy = email.clone();
    assert_eq!(copy.as_ref(), email.as_ref());
}

#[test]
fn the_verdict_follows_the_answer_of_the_check() {
    assert_eq!(email_verdict("a@b.c".to_string(), true), Ok("a@b.c".to_string()));
    assert_eq!(
        email_verdict("a@b.c".to_string(), false),
        Err("a@b.c is not a valid subscriber email.".to_string())
    );
}
