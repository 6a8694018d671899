use z2p::domain::SubscriberEmail;
use z2p::email_client::{
    classify_response, confirmation_email, confirmation_link, DispatchError, Outbox,
};

fn recipient() -> SubscriberEmail {
    SubscriberEmail::parse("ursula_le_guin@gmail.com".to_string()).unwrap()
}

#[test]
fn the_link_is_the_base_the_path_and_the_token() {
    assert_eq!(
        confirmation_link("http://127.0.0.1", "abc123"),
        "http://127.0.0.1/subscriptions/confirm?subscription_token=abc123"
    );
    assert_eq!(confirmation_link("", ""), "/subscriptions/confirm?subscription_token=");
}

#[test]
fn both_bodies_carry_the_link() {
    let link = "http://127.0.0.1/subscriptions/confirm?subscription_token=abc123";
    let email = confirmation_email(&recipient(), link);
    assert_eq!(email.recipient, "ursula_le_guin@gmail.com");
    assert_eq!(email.subject, "Welcome!");
    assert_eq!(
        email.html_body,
        "Welcome to our newsletter!<br />Click <a href=\"http://127.0.0.1/subscriptions/confirm?subscription_token=abc123\">here</a> to confirm your subscription."
    );
    assert_eq!(
        email.text_body,
        "Welcome to our newsletter!\nVisit http://127.0.0.1/subscriptions/confirm?subscription_token=abc123 to confirm your subscription."
    );
}

#[test]
fn only_a_2xx_status_is_delivered() {
    assert_eq!(classify_response(200), Ok(()));
    assert_eq!(classify_response(202), Ok(()));
    assert_eq!(classify_response(299), Ok(()));
    assert_eq!(classify_response(199), Err(DispatchError::Rejected { status: 199 }));
    assert_eq!(classify_response(300), Err(DispatchError::Rejected { status: 300 }));
    assert_eq!(classify_response(500), Err(DispatchError::Rejected { status: 500 }));
    assert_eq!(classify_response(0), Err(DispatchError::Rejected { status: 0 }));
}

#[test]
fn an_outbox_records_what_it_delivers() {
    let mut outbox = Outbox::new();
    assert!(outbox.sent().is_empty());
    assert_eq!(outbox.deliver(confirmation_email(&recipient(), "http://a/1")), Ok(()));
    assert_eq!(outbox.deliver(confirmation_email(&recipient(), "http://a/2")), Ok(()));
    assert_eq!(outbox.sent().len(), 2);
    assert!(outbox.sent()[0].text_body.contains("http://a/1"));
    assert!(outbox.sent()[1].text_body.contains("http://a/2"));
}

#[test]
fn an_unreachable_outbox_fails_and_keeps_nothing() {
    let mut outbox = Outbox::new();
    outbox.deliver(confirmation_email(&recipient(), "http://a/1")).unwrap();
    outbox.set_reachable(false);
    assert_eq!(
        outbox.deliver(confirmation_email(&recipient(), "http://a/2")),
        Err(DispatchError::Timeout)
    );
    assert_eq!(outbox.sent().len(), 1);
    outbox.set_reachable(true);
    assert_eq!(outbox.deliver(confirmation_email(&recipient(), "http://a/3")), Ok(()));
    assert_eq!(outbox.sent().len(), 2);
}
