//! Intake of subscription requests: validate, persist a pending subscriber
//! with its token, send the confirmation message, answer.

use crate::domain::new_subscriber::{accepted_form, is_valid_form};
use crate::domain::subscriber_name::{is_valid_name, satisfies_name_rules};
use crate::domain::{NewSubscriber, SubscriberEmail};
use crate::email_client::{
    confirmation_email,
    confirmation_link,
    confirmation_message,
    link_for,
    ConfirmationEmail,
    DispatchError,
    Message,
    Outbox,
    OutboxState,
};
use crate::routes::outcome::HttpOutcome;
use crate::startup::ApplicationBaseUrl;
use crate::store::memory::{is_random_identifier, SubscriberStore};
use crate::store::model::{StoreError, Tables};
use crate::text::{count_graphemes, grapheme_count};
use crate::token::is_issued_token;
use vstd::prelude::*;

verus! {

/// The two fields of a subscription form, as the client sent them.
pub struct FormData {
    pub email: String,
    pub name: String,
}

/// The two fields of a form as plain text.
pub struct FormText {
    pub email: Seq<char>,
    pub name: Seq<char>,
}

impl View for FormData {
    type V = FormText;

    open spec fn view(&self) -> FormText {
        FormText { email: self.email@, name: self.name@ }
    }
}

/// Whether `s` would be accepted as a subscriber name. A text has at most
/// as many grapheme clusters as characters.
pub fn is_valid(s: &str) -> (ok: bool)
    ensures
        ok == is_valid_name(s@),
        grapheme_count(s@) <= s@.len(),
{
    let graphemes = count_graphemes(s);
    satisfies_name_rules(s, graphemes)
}

/// Why a subscription request was given up.
#[derive(Clone, Copy, Debug, PartialEq, Eq, Structural)]
pub enum IntakeFailure {
    /// The name or the address failed validation.
    Validation,
    /// The store knows the address already.
    DuplicateSubscriber,
    /// The store did not take the write.
    Storage,
    /// The transport did not take the message.
    Dispatch,
    /// The outside handed back something that was not asked for.
    OutOfTurn,
}

/// How a failure is reported: a failed validation is the client's fault,
/// every other failure is the server's.
pub open spec fn outcome_of_failure(failure: IntakeFailure) -> HttpOutcome {
    match failure {
        IntakeFailure::Validation => HttpOutcome::BadRequest,
        _ => HttpOutcome::InternalError,
    }
}

pub open spec fn failure_of_store(error: StoreError) -> IntakeFailure {
    match error {
        StoreError::DuplicateSubscriber => IntakeFailure::DuplicateSubscriber,
        StoreError::Storage => IntakeFailure::Storage,
    }
}

impl IntakeFailure {
    pub fn outcome(&self) -> (outcome: HttpOutcome)
        ensures
            outcome == outcome_of_failure(*self),
    {
        match self {
            IntakeFailure::Validation => HttpOutcome::BadRequest,
            _ => HttpOutcome::InternalError,
        }
    }
}

/// How far the handling of one subscription request has come.
pub enum IntakeState {
    /// The form has arrived; nothing was done yet.
    Received { form: FormData },
    /// The form is valid; the store has been asked to create the subscriber.
    Validated { recipient: SubscriberEmail },
    /// The subscriber and its token are stored; the message is on its way.
    Persisted,
    /// The message went out; the success has yet to be reported.
    Notified,
    /// The request was given up; the failure has yet to be reported.
    Aborted { failure: IntakeFailure },
    /// `outcome` was reported. Nothing follows.
    Done { outcome: HttpOutcome },
}

/// What the outside hands back to the intake.
pub enum IntakeEvent {
    /// A request came in.
    Started,
    /// The store answered: the token it issued, or why it refused.
    Stored { token: Result<String, StoreError> },
    /// The transport answered.
    Sent { delivery: Result<(), DispatchError> },
    /// The outcome was reported to the client.
    Responded,
}

/// What the intake asks the outside to do next.
pub enum IntakeAction {
    /// Create this subscriber as pending, together with a fresh token.
    Persist { subscriber: NewSubscriber },
    /// Send this message.
    Dispatch { email: ConfirmationEmail },
    /// Report this outcome to the client.
    Respond { outcome: HttpOutcome },
    /// Nothing is left to do.
    Halt,
}

pub enum IntakeStateView {
    Received { form: FormText },
    Validated { recipient: Seq<char> },
    Persisted,
    Notified,
    Aborted { failure: IntakeFailure },
    Done { outcome: HttpOutcome },
}

pub enum IntakeEventView {
    Started,
    Stored { token: Result<Seq<char>, StoreError> },
    Sent { delivery: Result<(), DispatchError> },
    Responded,
}

pub enum IntakeActionView {
    Persist { subscriber: FormText },
    Dispatch { message: Message },
    Respond { outcome: HttpOutcome },
    Halt,
}

impl View for IntakeState {
    type V = IntakeStateView;

    open spec fn view(&self) -> IntakeStateView {
        match self {
            IntakeState::Received { form } => IntakeStateView::Received { form: form@ },
            IntakeState::Validated { recipient } => IntakeStateView::Validated {
                recipient: recipient@,
            },
            IntakeState::Persisted => IntakeStateView::Persisted,
            IntakeState::Notified => IntakeStateView::Notified,
            IntakeState::Aborted { failure } => IntakeStateView::Aborted { failure: *failure },
            IntakeState::Done { outcome } => IntakeStateView::Done { outcome: *outcome },
        }
    }
}

impl View for IntakeEvent {
    type V = IntakeEventView;

    open spec fn view(&self) -> IntakeEventView {
        match self {
            IntakeEvent::Started => IntakeEventView::Started,
            IntakeEvent::Stored { token } => IntakeEventView::Stored {
                token: match token {
                    Ok(text) => Ok(text@),
                    Err(error) => Err(*error),
                },
            },
            IntakeEvent::Sent { delivery } => IntakeEventView::Sent { delivery: *delivery },
            IntakeEvent::Responded => IntakeEventView::Responded,
        }
    }
}

impl View for IntakeAction {
    type V = IntakeActionView;

    open spec fn view(&self) -> IntakeActionView {
        match self {
            IntakeAction::Persist { subscriber } => IntakeActionView::Persist {
                subscriber: subscriber@,
            },
            IntakeAction::Dispatch { email } => IntakeActionView::Dispatch { message: email@ },
            IntakeAction::Respond { outcome } => IntakeActionView::Respond { outcome: *outcome },
            IntakeAction::Halt => IntakeActionView::Halt,
        }
    }
}

/// Giving a request up: the state to go to and the action to take.
pub open spec fn abort_with(failure: IntakeFailure) -> (IntakeStateView, IntakeActionView) {
    (
        IntakeStateView::Aborted { failure },
        IntakeActionView::Respond { outcome: outcome_of_failure(failure) },
    )
}

/// The intake as a state machine: from a state and what the outside handed
/// back, the next state and what to ask of the outside.
///
/// An invalid form is given up as a bad request before anything is asked of
/// the store. A refusal of the store, or a failure of the transport, is given
/// up as an internal error; what the store has written by then stays written.
/// An event that the state was not waiting for is given up as an internal
/// error too, unless the request is settled already: what was settled stands.
pub open spec fn intake_transition(
    state: IntakeStateView,
    event: IntakeEventView,
    base_url: Seq<char>,
) -> (IntakeStateView, IntakeActionView) {
    match state {
        IntakeStateView::Received { form } => match event {
            IntakeEventView::Started => if is_valid_form(form.name, form.email) {
                (
                    IntakeStateView::Validated { recipient: form.email },
                    IntakeActionView::Persist { subscriber: accepted_form(form) },
                )
            } else {
                abort_with(IntakeFailure::Validation)
            },
            _ => abort_with(IntakeFailure::OutOfTurn),
        },
        IntakeStateView::Validated { recipient } => match event {
            IntakeEventView::Stored { token: Ok(token) } => (
                IntakeStateView::Persisted,
                IntakeActionView::Dispatch {
                    message: confirmation_message(recipient, link_for(base_url, token)),
                },
            ),
            IntakeEventView::Stored { token: Err(error) } => abort_with(failure_of_store(error)),
            _ => abort_with(IntakeFailure::OutOfTurn),
        },
        IntakeStateView::Persisted => match event {
            IntakeEventView::Sent { delivery: Ok(_) } => (
                IntakeStateView::Notified,
                IntakeActionView::Respond { outcome: HttpOutcome::Success },
            ),
            IntakeEventView::Sent { delivery: Err(_) } => abort_with(IntakeFailure::Dispatch),
            _ => abort_with(IntakeFailure::OutOfTurn),
        },
        IntakeStateView::Notified => match event {
            IntakeEventView::Responded => (
                IntakeStateView::Done { outcome: HttpOutcome::Success },
                IntakeActionView::Halt,
            ),
            _ => (
                IntakeStateView::Notified,
                IntakeActionView::Respond { outcome: HttpOutcome::Success },
            ),
        },
        IntakeStateView::Aborted { failure } => match event {
            IntakeEventView::Responded => (
                IntakeStateView::Done { outcome: outcome_of_failure(failure) },
                IntakeActionView::Halt,
            ),
            _ => abort_with(failure),
        },
        IntakeStateView::Done { outcome } => (
            IntakeStateView::Done { outcome },
            IntakeActionView::Halt,
        ),
    }
}

fn abort(failure: IntakeFailure) -> (next: (IntakeState, IntakeAction))
    ensures
        (next.0@, next.1@) == abort_with(failure),
{
    (IntakeState::Aborted { failure }, IntakeAction::Respond { outcome: failure.outcome() })
}

/// One step of the intake, exactly as [`intake_transition`] lays it down.
pub fn intake_step(state: IntakeState, event: IntakeEvent, base_url: &ApplicationBaseUrl) -> (next:
    (IntakeState, IntakeAction))
    ensures
        (next.0@, next.1@) == intake_transition(state@, event@, base_url.0@),
{
    match state {
        IntakeState::Received { form } => match event {
            IntakeEvent::Started => match NewSubscriber::try_from(form) {
                Ok(subscriber) => {
                    let recipient = subscriber.email.clone();
                    (IntakeState::Validated { recipient }, IntakeAction::Persist { subscriber })
                },
                Err(_) => abort(IntakeFailure::Validation),
            },
            _ => abort(IntakeFailure::OutOfTurn),
        },
        IntakeState::Validated { recipient } => match event {
            IntakeEvent::Stored { token: Ok(token) } => {
                let link = confirmation_link(base_url.0.as_str(), token.as_str());
                let email = confirmation_email(&recipient, link.as_str());
                (IntakeState::Persisted, IntakeAction::Dispatch { email })
            },
            IntakeEvent::Stored { token: Err(StoreError::DuplicateSubscriber) } => abort(
                IntakeFailure::DuplicateSubscriber,
            ),
            IntakeEvent::Stored { token: Err(StoreError::Storage) } => abort(IntakeFailure::Storage),
            _ => abort(IntakeFailure::OutOfTurn),
        },
        IntakeState::Persisted => match event {
            IntakeEvent::Sent { delivery: Ok(_) } => (
                IntakeState::Notified,
                IntakeAction::Respond { outcome: HttpOutcome::Success },
            ),
            IntakeEvent::Sent { delivery: Err(_) } => abort(IntakeFailure::Dispatch),
            _ => abort(IntakeFailure::OutOfTurn),
        },
        IntakeState::Notified => match event {
            IntakeEvent::Responded => (
                IntakeState::Done { outcome: HttpOutcome::Success },
                IntakeAction::Halt,
            ),
            _ => (IntakeState::Notified, IntakeAction::Respond { outcome: HttpOutcome::Success }),
        },
        IntakeState::Aborted { failure } => match event {
            IntakeEvent::Responded => (
                IntakeState::Done { outcome: failure.outcome() },
                IntakeAction::Halt,
            ),
            _ => abort(failure),
        },
        IntakeState::Done { outcome } => (IntakeState::Done { outcome }, IntakeAction::Halt),
    }
}

/// What one handled request leaves behind, given the store and the outbox
/// it met, and the store and the outbox it left.
///
/// An invalid form is a bad request and leaves no trace. A valid form that
/// the store refuses is an internal error and leaves no trace either: the
/// store refuses only what it does not admit, for some identifier and token
/// that can be drawn, so an empty store refuses nothing. Otherwise exactly one pending subscriber and
/// its one token were written, with the form's address and its trimmed
/// name, and the message with
/// the link for that token was handed to the transport once: the outcome is
/// a success where the transport answered, and an internal error where it
/// did not, in which case the subscriber stays.
pub open spec fn intake_leaves(
    store_before: Tables,
    outbox_before: OutboxState,
    form: FormText,
    base_url: Seq<char>,
    outcome: HttpOutcome,
    store_after: Tables,
    outbox_after: OutboxState,
) -> bool {
    if !is_valid_form(form.name, form.email) {
        &&& outcome == HttpOutcome::BadRequest
        &&& store_after == store_before
        &&& outbox_after == outbox_before
    } else if store_after == store_before {
        &&& outcome == HttpOutcome::InternalError
        &&& outbox_after == outbox_before
        &&& store_before.subscribers.len() > 0
        &&& exists|id: u128, token: Seq<char>|
            is_random_identifier(id) && is_issued_token(token) && (#[trigger] store_before.admits(
                id,
                form.email,
                token,
            )) is Err
    } else {
        let row = store_after.subscribers.last();
        let token = store_after.tokens.last().token;
        &&& is_random_identifier(row.id)
        &&& is_issued_token(token)
        &&& store_before.admits(row.id, form.email, token) is Ok
        &&& store_after == store_before.with_pending(
            row.id,
            form.email,
            accepted_form(form).name,
            row.subscribed_at,
            token,
        )
        &&& outbox_after == outbox_before.after(
            confirmation_message(form.email, link_for(base_url, token)),
        )
        &&& outcome == if outbox_before.reachable {
            HttpOutcome::Success
        } else {
            HttpOutcome::InternalError
        }
    }
}

/// Handles one subscription request against a store and a transport kept in
/// memory, by running the intake machine to its end.
pub fn subscribe(
    form: FormData,
    store: &mut SubscriberStore,
    outbox: &mut Outbox,
    base_url: &ApplicationBaseUrl,
) -> (outcome: HttpOutcome)
    requires
        old(store).wf(),
    ensures
        final(store).wf(),
        intake_leaves(
            old(store)@,
            old(outbox)@,
            form@,
            base_url.0@,
            outcome,
            final(store)@,
            final(outbox)@,
        ),
        old(store)@.has_email(form.email@) ==> final(store)@ == old(store)@,
{
    let (state, action) = intake_step(IntakeState::Received { form }, IntakeEvent::Started, base_url);
    let (state, action) = match action {
        IntakeAction::Persist { subscriber } => {
            let token = match store.create_pending_subscriber(&subscriber) {
                Ok((_, token)) => Ok(token),
                Err(error) => Err(error),
            };
            proof {
                if token is Ok {
                    let written = old(store)@.subscribers.len() as int;
                    assert(store@.subscribers.last() == store@.subscribers[written]);
                    assert(store@.tokens.last() == store@.tokens[written]);
                }
            }
            intake_step(state, IntakeEvent::Stored { token }, base_url)
        },
        other => (state, other),
    };
    let (state, action) = match action {
        IntakeAction::Dispatch { email } => {
            let delivery = outbox.deliver(email);
            intake_step(state, IntakeEvent::Sent { delivery }, base_url)
        },
        other => (state, other),
    };
    match action {
        IntakeAction::Respond { outcome } => {
            let _ = intake_step(state, IntakeEvent::Responded, base_url);
            outcome
        },
        _ => HttpOutcome::InternalError,
    }
}

} // verus!
