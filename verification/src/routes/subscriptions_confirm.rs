//! Confirmation of a subscription by the token in the link.

use crate::routes::outcome::HttpOutcome;
use crate::store::memory::SubscriberStore;
use crate::store::model::{ConfirmOutcome, StoreError, Tables};
use crate::token::{is_well_formed, is_well_formed_token};
use vstd::prelude::*;

verus! {

/// The query of a confirmation request. The token is absent when the
/// request carried no `subscription_token`.
pub struct Parameters {
    pub subscription_token: Option<String>,
}

/// How far the handling of one confirmation request has come.
pub enum ConfirmationState {
    /// The request has arrived; nothing was done yet.
    Received { parameters: Parameters },
    /// The token is well formed; the store has been asked to confirm by it.
    Looking,
    /// The outcome is settled and has yet to be reported.
    Answered { outcome: HttpOutcome },
    /// `outcome` was reported. Nothing follows.
    Done { outcome: HttpOutcome },
}

/// What the outside hands back to the confirmation.
pub enum ConfirmationEvent {
    /// A request came in.
    Started,
    /// The store answered.
    Looked { result: Result<ConfirmOutcome, StoreError> },
    /// The outcome was reported to the client.
    Responded,
}

/// What the confirmation asks the outside to do next.
pub enum ConfirmationAction {
    /// Confirm the subscriber that owns this token.
    Confirm { token: String },
    /// Report this outcome to the client.
    Respond { outcome: HttpOutcome },
    /// Nothing is left to do.
    Halt,
}

pub enum ConfirmationStateView {
    Received { token: Option<Seq<char>> },
    Looking,
    Answered { outcome: HttpOutcome },
    Done { outcome: HttpOutcome },
}

pub enum ConfirmationActionView {
    Confirm { token: Seq<char> },
    Respond { outcome: HttpOutcome },
    Halt,
}

impl View for Parameters {
    type V = Option<Seq<char>>;

    open spec fn view(&self) -> Option<Seq<char>> {
        match self.subscription_token {
            Some(token) => Some(token@),
            None => None,
        }
    }
}

impl View for ConfirmationState {
    type V = ConfirmationStateView;

    open spec fn view(&self) -> ConfirmationStateView {
        match self {
            ConfirmationState::Received { parameters } => ConfirmationStateView::Received {
                token: parameters@,
            },
            ConfirmationState::Looking => ConfirmationStateView::Looking,
            ConfirmationState::Answered { outcome } => ConfirmationStateView::Answered {
                outcome: *outcome,
            },
            ConfirmationState::Done { outcome } => ConfirmationStateView::Done { outcome: *outcome },
        }
    }
}

impl View for ConfirmationAction {
    type V = ConfirmationActionView;

    open spec fn view(&self) -> ConfirmationActionView {
        match self {
            ConfirmationAction::Confirm { token } => ConfirmationActionView::Confirm {
                token: token@,
            },
            ConfirmationAction::Respond { outcome } => ConfirmationActionView::Respond {
                outcome: *outcome,
            },
            ConfirmationAction::Halt => ConfirmationActionView::Halt,
        }
    }
}

/// A request can be looked up when it carries a token and that token is well
/// formed.
pub open spec fn carries_token(token: Option<Seq<char>>) -> bool {
    token matches Some(text) && is_well_formed_token(text)
}

/// How the store's answer is reported: a confirmation, fresh or repeated, is
/// a success; an unknown token is unauthorized; a failure of the storage is
/// an internal error.
pub open spec fn outcome_of_lookup(result: Result<ConfirmOutcome, StoreError>) -> HttpOutcome {
    match result {
        Ok(ConfirmOutcome::Confirmed) => HttpOutcome::Success,
        Ok(ConfirmOutcome::TokenNotFound) => HttpOutcome::Unauthorized,
        Err(_) => HttpOutcome::InternalError,
    }
}

pub open spec fn answer_with(outcome: HttpOutcome) -> (
    ConfirmationStateView,
    ConfirmationActionView,
) {
    (ConfirmationStateView::Answered { outcome }, ConfirmationActionView::Respond { outcome })
}

/// The confirmation as a state machine: from a state and what the outside
/// handed back, the next state and what to ask of the outside.
///
/// A request without a token, or with a malformed one, is a bad request and
/// nothing is asked of the store. An event that the state was not waiting
/// for is an internal error, unless an outcome is settled already: that
/// outcome stands.
pub open spec fn confirmation_transition(
    state: ConfirmationStateView,
    event: ConfirmationEvent,
) -> (ConfirmationStateView, ConfirmationActionView) {
    match state {
        ConfirmationStateView::Received { token } => match event {
            ConfirmationEvent::Started => if carries_token(token) {
                (
                    ConfirmationStateView::Looking,
                    ConfirmationActionView::Confirm { token: token->0 },
                )
            } else {
                answer_with(HttpOutcome::BadRequest)
            },
            _ => answer_with(HttpOutcome::InternalError),
        },
        ConfirmationStateView::Looking => match event {
            ConfirmationEvent::Looked { result } => answer_with(outcome_of_lookup(result)),
            _ => answer_with(HttpOutcome::InternalError),
        },
        ConfirmationStateView::Answered { outcome } => match event {
            ConfirmationEvent::Responded => (
                ConfirmationStateView::Done { outcome },
                ConfirmationActionView::Halt,
            ),
            _ => answer_with(outcome),
        },
        ConfirmationStateView::Done { outcome } => (
            ConfirmationStateView::Done { outcome },
            ConfirmationActionView::Halt,
        ),
    }
}

/// Reports the store's answer, as [`outcome_of_lookup`] lays it down.
pub fn report_lookup(result: Result<ConfirmOutcome, StoreError>) -> (outcome: HttpOutcome)
    ensures
        outcome == outcome_of_lookup(result),
{
    match result {
        Ok(ConfirmOutcome::Confirmed) => HttpOutcome::Success,
        Ok(ConfirmOutcome::TokenNotFound) => HttpOutcome::Unauthorized,
        Err(_) => HttpOutcome::InternalError,
    }
}

fn answer(outcome: HttpOutcome) -> (next: (ConfirmationState, ConfirmationAction))
    ensures
        (next.0@, next.1@) == answer_with(outcome),
{
    (ConfirmationState::Answered { outcome }, ConfirmationAction::Respond { outcome })
}

/// One step of the confirmation, exactly as [`confirmation_transition`] lays
/// it down.
pub fn confirmation_step(state: ConfirmationState, event: ConfirmationEvent) -> (next: (
    ConfirmationState,
    ConfirmationAction,
))
    ensures
        (next.0@, next.1@) == confirmation_transition(state@, event),
{
    match state {
        ConfirmationState::Received { parameters } => match event {
            ConfirmationEvent::Started => match parameters.subscription_token {
                Some(token) => if is_well_formed(token.as_str()) {
                    (ConfirmationState::Looking, ConfirmationAction::Confirm { token })
                } else {
                    answer(HttpOutcome::BadRequest)
                },
                None => answer(HttpOutcome::BadRequest),
            },
            _ => answer(HttpOutcome::InternalError),
        },
        ConfirmationState::Looking => match event {
            ConfirmationEvent::Looked { result } => answer(report_lookup(result)),
            _ => answer(HttpOutcome::InternalError),
        },
        ConfirmationState::Answered { outcome } => match event {
            ConfirmationEvent::Responded => (
                ConfirmationState::Done { outcome },
                ConfirmationAction::Halt,
            ),
            _ => answer(outcome),
        },
        ConfirmationState::Done { outcome } => (
            ConfirmationState::Done { outcome },
            ConfirmationAction::Halt,
        ),
    }
}

/// The outcome of a confirmation request against a store in memory, which
/// never fails: a bad request without a well-formed token, a success for a
/// token that the store knows, unauthorized for any other.
pub open spec fn confirmation_outcome(store: Tables, token: Option<Seq<char>>) -> HttpOutcome {
    if !carries_token(token) {
        HttpOutcome::BadRequest
    } else if store.has_token(token->0) {
        HttpOutcome::Success
    } else {
        HttpOutcome::Unauthorized
    }
}

/// The store after a confirmation request: the owner of a well-formed, known
/// token is confirmed; nothing changes otherwise.
pub open spec fn confirmation_leaves(store: Tables, token: Option<Seq<char>>) -> Tables {
    if carries_token(token) {
        store.with_confirmed(token->0)
    } else {
        store
    }
}

/// Handles one confirmation request against a store kept in memory, by
/// running the confirmation machine to its end.
pub fn confirm(parameters: Parameters, store: &mut SubscriberStore) -> (outcome: HttpOutcome)
    requires
        old(store).wf(),
    ensures
        final(store).wf(),
        outcome == confirmation_outcome(old(store)@, parameters@),
        final(store)@ == confirmation_leaves(old(store)@, parameters@),
{
    let (state, action) = confirmation_step(
        ConfirmationState::Received { parameters },
        ConfirmationEvent::Started,
    );
    let (state, action) = match action {
        ConfirmationAction::Confirm { token } => {
            let result = Ok(store.confirm_by_token(token.as_str()));
            confirmation_step(state, ConfirmationEvent::Looked { result })
        },
        other => (state, other),
    };
    match action {
        ConfirmationAction::Respond { outcome } => {
            let _ = confirmation_step(state, ConfirmationEvent::Responded);
            outcome
        },
        _ => HttpOutcome::InternalError,
    }
}

} // verus!
