use z2p::email_client::{DispatchError, Outbox};
use z2p::routes::subscriptions::{
    intake_step, IntakeAction, IntakeEvent, IntakeFailure, IntakeState,
};
use z2p::routes::{subscribe, FormData, HttpOutcome};
use z2p::startup::ApplicationBaseUrl;
use z2p::store::{StoreError, SubscriberStatus, SubscriberStore};

pub struct TestApp {
    pub store: SubscriberStore,
    pub email_server: Outbox,
    pub base_url: ApplicationBaseUrl,
}

fn spawn_app() -> TestApp {
    TestApp {
        store: SubscriberStore::new(),
        email_server: Outbox::new(),
        base_url: ApplicationBaseUrl("http://127.0.0.1".to_string()),
    }
}

fn form(name: &str, email: &str) -> FormData {
    FormData { email: email.to_string(), name: name.to_string() }
}

fn post_subscriptions(app: &mut TestApp, name: &str, email: &str) -> HttpOutcome {
    subscribe(form(name, email), &mut app.store, &mut app.email_server, &app.base_url)
}

fn link_in(text: &str) -> String {
    let start = text.find("http").unwrap();
    let rest = &text[start..];
    let end = rest.find(|c: char| c == '"' || c.is_whitespace()).unwrap_or(rest.len());
    assert!(!rest[end..].contains("http"));
    rest[..end].to_string()
}

#[test]
fn subscribe_returns_a_400_on_for_invalid_fields() {
    let mut app = spawn_app();
    let test_cases = vec![
        ("", "ursula_le_guin@gmail.com", "empty name"),
        ("Ursula", "", "empty email"),
        ("Ursula", "definitely-not-an-email", "invalid email"),
    ];
    for (name, email, desc) in test_cases {
        let response = post_subscriptions(&mut app, name, email);
        assert_eq!(
            400,
            response.status_code(),
            "The API did not return a 400 BAD REQUEST when the payload was {}.",
            desc
        );
        assert_eq!(app.store.len(), 0);
        assert!(app.email_server.sent().is_empty());
    }
}

#[test]
fn subscribe_returns_a_200_for_valid_form_data() {
    let mut app = spawn_app();
    let response = post_subscriptions(&mut app, "le guin", "ursula_le_guin@gmail.com");
    assert_eq!(200, response.status_code());
}

#[test]
fn subscribe_persists_the_new_subscriber() {
    let mut app = spawn_app();
    post_subscriptions(&mut app, "le guin", "ursula_le_guin@gmail.com");
    assert_eq!(app.store.len(), 1);
    let saved = &app.store.subscribers()[0];
    assert_eq!(saved.email, "ursula_le_guin@gmail.com");
    assert_eq!(saved.name, "le guin");
    assert_eq!(saved.status.as_str(), "pending_confirmation");
}

#[test]
fn subscribe_sends_a_confirmation_email_for_valid_data() {
    let mut app = spawn_app();
    post_subscriptions(&mut app, "le guin", "ursula_le_guin@gmail.com");
    assert_eq!(app.email_server.sent().len(), 1);
    assert_eq!(app.email_server.sent()[0].recipient, "ursula_le_guin@gmail.com");
}

#[test]
fn subscribe_sends_a_confirmation_email_with_a_link() {
    let mut app = spawn_app();
    post_subscriptions(&mut app, "le guin", "ursula_le_guin@gmail.com");
    let email_request = &app.email_server.sent()[0];
    let html = link_in(&email_request.html_body);
    let plain_text = link_in(&email_request.text_body);
    assert_eq!(html, plain_text);
    let token = app.store.token_of(app.store.subscribers()[0].id).unwrap();
    assert_eq!(
        html,
        format!("http://127.0.0.1/subscriptions/confirm?subscription_token={}", token)
    );
}

#[test]
fn subscribe_rejects_names_that_break_the_rules() {
    let mut app = spawn_app();
    let long = "a".repeat(257);
    for name in [" ", "\t\n", long.as_str(), "Ursula/Le Guin", "{Ursula}", "Urs\"ula"] {
        let response = post_subscriptions(&mut app, name, "ursula_le_guin@gmail.com");
        assert_eq!(response, HttpOutcome::BadRequest);
    }
    assert_eq!(app.store.len(), 0);
    assert!(app.email_server.sent().is_empty());
}

#[test]
fn subscribe_fails_with_a_500_for_a_known_address() {
    let mut app = spawn_app();
    assert_eq!(post_subscriptions(&mut app, "le guin", "ursula_le_guin@gmail.com").status_code(), 200);
    let response = post_subscriptions(&mut app, "Ursula", "ursula_le_guin@gmail.com");
    assert_eq!(response.status_code(), 500);
    assert_eq!(app.store.len(), 1);
    assert_eq!(app.store.subscribers()[0].name, "le guin");
    assert_eq!(app.email_server.sent().len(), 1);
}

#[test]
fn subscribe_fails_with_a_500_when_the_email_cannot_be_sent() {
    let mut app = spawn_app();
    app.email_server.set_reachable(false);
    let response = post_subscriptions(&mut app, "le guin", "ursula_le_guin@gmail.com");
    assert_eq!(response.status_code(), 500);
    assert!(app.email_server.sent().is_empty());
    assert_eq!(app.store.len(), 1);
    assert_eq!(app.store.subscribers()[0].status, SubscriberStatus::PendingConfirmation);
    assert!(app.store.token_of(app.store.subscribers()[0].id).is_some());
}

#[test]
fn two_subscribers_get_two_tokens_and_two_emails() {
    let mut app = spawn_app();
    assert_eq!(post_subscriptions(&mut app, "a", "a@example.com"), HttpOutcome::Success);
    assert_eq!(post_subscriptions(&mut app, "b", "b@example.com"), HttpOutcome::Success);
    assert_eq!(app.store.len(), 2);
    let first = app.store.token_of(app.store.subscribers()[0].id).unwrap().to_string();
    let second = app.store.token_of(app.store.subscribers()[1].id).unwrap().to_string();
    assert_ne!(first, second);
    assert_eq!(app.email_server.sent().len(), 2);
    assert!(app.email_server.sent()[0].text_body.contains(&first));
    assert!(app.email_server.sent()[1].text_body.contains(&second));
    assert_eq!(app.email_server.sent()[1].recipient, "b@example.com");
}

fn base() -> ApplicationBaseUrl {
    ApplicationBaseUrl("https://news.example".to_string())
}

#[test]
fn the_intake_walks_from_received_to_done() {
    let (state, action) = intake_step(
        IntakeState::Received { form: form("le guin", "ursula_le_guin@gmail.com") },
        IntakeEvent::Started,
        &base(),
    );
    match (&state, &action) {
        (IntakeState::Validated { recipient }, IntakeAction::Persist { subscriber }) => {
            assert_eq!(recipient.as_ref(), "ursula_le_guin@gmail.com");
            assert_eq!(subscriber.name.as_ref(), "le guin");
            assert_eq!(subscriber.email.as_ref(), "ursula_le_guin@gmail.com");
        }
        _ => panic!("a valid form is validated and persisted"),
    }
    let (state, action) =
        intake_step(state, IntakeEvent::Stored { token: Ok("tok123".to_string()) }, &base());
    match (&state, &action) {
        (IntakeState::Persisted, IntakeAction::Dispatch { email }) => {
            assert_eq!(email.recipient, "ursula_le_guin@gmail.com");
            assert_eq!(
                email.text_body,
                "Welcome to our newsletter!\nVisit https://news.example/subscriptions/confirm?subscription_token=tok123 to confirm your subscription."
            );
        }
        _ => panic!("a stored subscriber is notified"),
    }
    let (state, action) = intake_step(state, IntakeEvent::Sent { delivery: Ok(()) }, &base());
    assert!(matches!(state, IntakeState::Notified));
    assert!(matches!(action, IntakeAction::Respond { outcome: HttpOutcome::Success }));
    let (state, action) = intake_step(state, IntakeEvent::Responded, &base());
    assert!(matches!(state, IntakeState::Done { outcome: HttpOutcome::Success }));
    assert!(matches!(action, IntakeAction::Halt));
    let (state, action) = intake_step(state, IntakeEvent::Started, &base());
    assert!(matches!(state, IntakeState::Done { outcome: HttpOutcome::Success }));
    assert!(matches!(action, IntakeAction::Halt));
}

#[test]
fn the_intake_gives_up_an_invalid_form_at_once() {
    let (state, action) = intake_step(
        IntakeState::Received { form: form("", "ursula_le_guin@gmail.com") },
        IntakeEvent::Started,
        &base(),
    );
    assert!(matches!(state, IntakeState::Aborted { failure: IntakeFailure::Validation }));
    assert!(matches!(action, IntakeAction::Respond { outcome: HttpOutcome::BadRequest }));
    let (state, action) =
        intake_step(state, IntakeEvent::Stored { token: Ok("tok".to_string()) }, &base());
    assert!(matches!(state, IntakeState::Aborted { failure: IntakeFailure::Validation }));
    assert!(matches!(action, IntakeAction::Respond { outcome: HttpOutcome::BadRequest }));
    let (state, action) = intake_step(state, IntakeEvent::Responded, &base());
    assert!(matches!(state, IntakeState::Done { outcome: HttpOutcome::BadRequest }));
    assert!(matches!(action, IntakeAction::Halt));
}

fn validated() -> IntakeState {
    intake_step(
        IntakeState::Received { form: form("le guin", "ursula_le_guin@gmail.com") },
        IntakeEvent::Started,
        &base(),
    )
    .0
}

#[test]
fn the_intake_tells_the_failures_apart() {
    let (state, action) = intake_step(
        validated(),
        IntakeEvent::Stored { token: Err(StoreError::DuplicateSubscriber) },
        &base(),
    );
    assert!(matches!(state, IntakeState::Aborted { failure: IntakeFailure::DuplicateSubscriber }));
    assert!(matches!(action, IntakeAction::Respond { outcome: HttpOutcome::InternalError }));

    let (state, action) =
        intake_step(validated(), IntakeEvent::Stored { token: Err(StoreError::Storage) }, &base());
    assert!(matches!(state, IntakeState::Aborted { failure: IntakeFailure::Storage }));
    assert!(matches!(action, IntakeAction::Respond { outcome: HttpOutcome::InternalError }));

    let (persisted, _) =
        intake_step(validated(), IntakeEvent::Stored { token: Ok("tok".to_string()) }, &base());
    let (state, action) = intake_step(
        persisted,
        IntakeEvent::Sent { delivery: Err(DispatchError::Rejected { status: 503 }) },
        &base(),
    );
    assert!(matches!(state, IntakeState::Aborted { failure: IntakeFailure::Dispatch }));
    assert!(matches!(action, IntakeAction::Respond { outcome: HttpOutcome::InternalError }));

    let (state, action) =
        intake_step(validated(), IntakeEvent::Sent { delivery: Ok(()) }, &base());
    assert!(matches!(state, IntakeState::Aborted { failure: IntakeFailure::OutOfTurn }));
    assert!(matches!(action, IntakeAction::Respond { outcome: HttpOutcome::InternalError }));
}

#[test]
fn every_failure_has_its_outcome() {
    assert_eq!(IntakeFailure::Validation.outcome(), HttpOutcome::BadRequest);
    assert_eq!(IntakeFailure::DuplicateSubscriber.outcome(), HttpOutcome::InternalError);
    assert_eq!(IntakeFailure::Storage.outcome(), HttpOutcome::InternalError);
    assert_eq!(IntakeFailure::Dispatch.outcome(), HttpOutcome::InternalError);
    assert_eq!(IntakeFailure::OutOfTurn.outcome(), HttpOutcome::InternalError);
}

#[test]
fn subscribe_persists_the_name_without_the_white_space_around_it() {
    let mut app = spawn_app();
    let response = post_subscriptions(&mut app, "  le guin\n", "ursula_le_guin@gmail.com");
    assert_eq!(response.status_code(), 200);
    assert_eq!(app.store.subscribers()[0].name, "le guin");
    assert_eq!(app.store.subscribers()[0].email, "ursula_le_guin@gmail.com");
}
