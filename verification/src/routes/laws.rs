//! What holds of the two workflows, whatever requests come in.

use crate::domain::new_subscriber::{accepted_form, is_valid_form};
use crate::text::trimmed;
use crate::email_client::{
    html_body_for,
    link_for,
    text_body_for,
    OutboxState,
};
use crate::routes::outcome::HttpOutcome;
use crate::routes::subscriptions::{
    intake_leaves,
    intake_transition,
    FormText,
    outcome_of_failure,
    IntakeActionView,
    IntakeEventView,
    IntakeStateView,
};
use crate::routes::subscriptions_confirm::{
    carries_token,
    confirmation_leaves,
    confirmation_outcome,
};
use crate::store::laws::{
    lemma_confirm_is_idempotent,
    lemma_created_once,
    lemma_known_token,
    lemma_with_confirmed_wf,
    lemma_with_pending_wf,
};
use crate::store::model::{SubscriberStatus, Tables};
use crate::token::is_well_formed_token;
use vstd::prelude::*;

verus! {

/// The actions that the intake takes, in order, when it starts in `state`
/// and is handed `events` one after the other.
pub open spec fn intake_actions(
    state: IntakeStateView,
    events: Seq<IntakeEventView>,
    base_url: Seq<char>,
) -> Seq<IntakeActionView>
    decreases events.len(),
{
    if events.len() == 0 {
        Seq::empty()
    } else {
        let (next, action) = intake_transition(state, events[0], base_url);
        seq![action] + intake_actions(next, events.drop_first(), base_url)
    }
}

/// An action that touches neither the store nor the transport, and reports
/// nothing but `outcome`.
pub open spec fn only_reports(action: IntakeActionView, outcome: HttpOutcome) -> bool {
    action == (IntakeActionView::Respond { outcome }) || action == IntakeActionView::Halt
}

/// The request is settled, and `outcome` is what is or was reported for it.
pub open spec fn is_settled_on(state: IntakeStateView, outcome: HttpOutcome) -> bool {
    match state {
        IntakeStateView::Notified => outcome == HttpOutcome::Success,
        IntakeStateView::Aborted { failure } => outcome == outcome_of_failure(failure),
        IntakeStateView::Done { outcome: reported } => outcome == reported,
        _ => false,
    }
}

/// Once an outcome is settled, whatever the outside hands back, the intake
/// only ever reports that outcome: it asks nothing more of the store or of
/// the transport.
pub proof fn lemma_settled_outcome_stands(
    state: IntakeStateView,
    outcome: HttpOutcome,
    events: Seq<IntakeEventView>,
    base_url: Seq<char>,
)
    requires
        is_settled_on(state, outcome),
    ensures
        forall|i: int|
            0 <= i < intake_actions(state, events, base_url).len() ==> only_reports(
                #[trigger] intake_actions(state, events, base_url)[i],
                outcome,
            ),
    decreases events.len(),
{
    if events.len() > 0 {
        let (next, action) = intake_transition(state, events[0], base_url);
        lemma_settled_outcome_stands(next, outcome, events.drop_first(), base_url);
        let rest = intake_actions(next, events.drop_first(), base_url);
        assert forall|i: int|
            0 <= i < intake_actions(state, events, base_url).len() implies only_reports(
            #[trigger] intake_actions(state, events, base_url)[i],
            outcome,
        ) by {
            if i > 0 {
                assert(intake_actions(state, events, base_url)[i] == rest[i - 1]);
            }
        }
    }
}

/// A request whose name or address fails validation is a bad request, and
/// nothing else: whatever the outside hands back afterwards, the intake
/// never asks the store to persist or the transport to dispatch.
pub proof fn lemma_invalid_form_leaves_no_trace(
    form: FormText,
    events: Seq<IntakeEventView>,
    base_url: Seq<char>,
)
    requires
        !is_valid_form(form.name, form.email),
        events.len() > 0,
        events[0] == IntakeEventView::Started,
    ensures
        intake_actions(IntakeStateView::Received { form }, events, base_url)[0] == (
        IntakeActionView::Respond { outcome: HttpOutcome::BadRequest }),
        forall|i: int|
            0 <= i < intake_actions(IntakeStateView::Received { form }, events, base_url).len()
                ==> only_reports(
                #[trigger] intake_actions(IntakeStateView::Received { form }, events, base_url)[i],
                HttpOutcome::BadRequest,
            ),
{
    let start = IntakeStateView::Received { form };
    let (next, action) = intake_transition(start, events[0], base_url);
    let rest = intake_actions(next, events.drop_first(), base_url);
    lemma_settled_outcome_stands(next, HttpOutcome::BadRequest, events.drop_first(), base_url);
    assert forall|i: int|
        0 <= i < intake_actions(start, events, base_url).len() implies only_reports(
        #[trigger] intake_actions(start, events, base_url)[i],
        HttpOutcome::BadRequest,
    ) by {
        if i > 0 {
            assert(intake_actions(start, events, base_url)[i] == rest[i - 1]);
        }
    }
}

/// How often the store is asked to persist among `actions`.
pub open spec fn count_persists(actions: Seq<IntakeActionView>) -> nat
    decreases actions.len(),
{
    if actions.len() == 0 {
        0
    } else if actions[0] is Persist {
        1 + count_persists(actions.drop_first())
    } else {
        count_persists(actions.drop_first())
    }
}

/// How often the transport is asked to dispatch among `actions`.
pub open spec fn count_dispatches(actions: Seq<IntakeActionView>) -> nat
    decreases actions.len(),
{
    if actions.len() == 0 {
        0
    } else if actions[0] is Dispatch {
        1 + count_dispatches(actions.drop_first())
    } else {
        count_dispatches(actions.drop_first())
    }
}

/// Whatever the outside hands back, and however often, the intake asks the
/// store to persist at most once and the transport to dispatch at most once
/// for one request; and what was asked already is not asked again.
pub proof fn lemma_each_asked_at_most_once(
    state: IntakeStateView,
    events: Seq<IntakeEventView>,
    base_url: Seq<char>,
)
    ensures
        count_persists(intake_actions(state, events, base_url)) <= 1,
        count_dispatches(intake_actions(state, events, base_url)) <= 1,
        !(state is Received) ==> count_persists(intake_actions(state, events, base_url)) == 0,
        !(state is Received || state is Validated) ==> count_dispatches(
            intake_actions(state, events, base_url),
        ) == 0,
    decreases events.len(),
{
    if events.len() > 0 {
        let (next, action) = intake_transition(state, events[0], base_url);
        let rest = intake_actions(next, events.drop_first(), base_url);
        let all = intake_actions(state, events, base_url);
        lemma_each_asked_at_most_once(next, events.drop_first(), base_url);
        assert(all[0] == action);
        assert(all.drop_first() =~= rest);
    }
}

/// The intake asks for a dispatch only when the store has just answered
/// with a token, and the message it hands over carries the link for that
/// token in both bodies.
pub proof fn lemma_dispatch_follows_storage(
    state: IntakeStateView,
    event: IntakeEventView,
    base_url: Seq<char>,
)
    requires
        intake_transition(state, event, base_url).1 is Dispatch,
    ensures
        state is Validated,
        event matches IntakeEventView::Stored { token: Ok(token) } && ({
            let message = intake_transition(state, event, base_url).1->message;
            &&& message.recipient == state->recipient
            &&& message.html_body == html_body_for(link_for(base_url, token))
            &&& message.text_body == text_body_for(link_for(base_url, token))
        }),
{
}

/// The intake asks the store to persist only a valid form, and only as its
/// first step.
pub proof fn lemma_persist_follows_validation(
    state: IntakeStateView,
    event: IntakeEventView,
    base_url: Seq<char>,
)
    requires
        intake_transition(state, event, base_url).1 is Persist,
    ensures
        state is Received,
        event == IntakeEventView::Started,
        is_valid_form(state->form.name, state->form.email),
        intake_transition(state, event, base_url).1->subscriber == accepted_form(state->form),
{
}

/// A success is reported only after the transport has answered a dispatch.
pub proof fn lemma_success_follows_dispatch(
    state: IntakeStateView,
    event: IntakeEventView,
    base_url: Seq<char>,
)
    requires
        intake_transition(state, event, base_url).1 == (IntakeActionView::Respond {
            outcome: HttpOutcome::Success,
        }),
    ensures
        state is Notified || (state is Persisted && event matches IntakeEventView::Sent {
            delivery: Ok(_),
        }),
{
}

/// A request that ends in success has left exactly one row with its address
/// in the store, pending, and exactly one token that belongs to that row;
/// and exactly one message more has gone out, to that address, whose HTML
/// body and plain-text body carry the same link: the one for that token.
pub proof fn lemma_success_writes_once_and_sends_once(
    store_before: Tables,
    outbox_before: OutboxState,
    form: FormText,
    base_url: Seq<char>,
    store_after: Tables,
    outbox_after: OutboxState,
)
    requires
        store_before.wf(),
        intake_leaves(
            store_before,
            outbox_before,
            form,
            base_url,
            HttpOutcome::Success,
            store_after,
            outbox_after,
        ),
    ensures
        store_after.wf(),
        is_valid_form(form.name, form.email),
        !store_before.has_email(form.email),
        store_before.precedes(store_after),
        ({
            let last = store_before.subscribers.len() as int;
            let row = store_after.subscribers[last];
            let token = store_after.tokens[last].token;
            &&& store_after.subscribers.len() == last + 1
            &&& store_after.tokens.len() == last + 1
            &&& row.email == form.email
            &&& row.name == trimmed(form.name)
            &&& row.status == SubscriberStatus::PendingConfirmation
            &&& forall|i: int|
                0 <= i < store_after.subscribers.len() && (#[trigger] store_after.subscribers[i]).email
                    == form.email ==> i == last
            &&& forall|i: int|
                0 <= i < store_after.tokens.len() && (#[trigger] store_after.tokens[i]).subscriber_id
                    == row.id ==> i == last
            &&& is_well_formed_token(token)
            &&& store_after.owner(token) == Some(row)
            &&& outbox_after.sent.len() == outbox_before.sent.len() + 1
            &&& outbox_after.sent.last().recipient == form.email
            &&& outbox_after.sent.last().html_body == html_body_for(link_for(base_url, token))
            &&& outbox_after.sent.last().text_body == text_body_for(link_for(base_url, token))
        }),
{
    let last = store_before.subscribers.len() as int;
    if store_after == store_before {
        assert(false);
    }
    let row = store_after.subscribers.last();
    let token = store_after.tokens.last().token;
    lemma_with_pending_wf(
        store_before,
        row.id,
        form.email,
        trimmed(form.name),
        row.subscribed_at,
        token,
    );
    lemma_created_once(
        store_before,
        row.id,
        form.email,
        trimmed(form.name),
        row.subscribed_at,
        token,
    );
    assert forall|i: int| 0 <= i < store_before.subscribers.len() implies {
        let before = #[trigger] store_before.subscribers[i];
        store_after.subscribers[i] == before
    } by {}
}

/// A request that fails after validation has either left the store as it
/// was, or left one pending subscriber more: the failed dispatch does not
/// take the subscriber back.
pub proof fn lemma_failed_dispatch_keeps_subscriber(
    store_before: Tables,
    outbox_before: OutboxState,
    form: FormText,
    base_url: Seq<char>,
    outcome: HttpOutcome,
    store_after: Tables,
    outbox_after: OutboxState,
)
    requires
        store_before.wf(),
        intake_leaves(
            store_before,
            outbox_before,
            form,
            base_url,
            outcome,
            store_after,
            outbox_after,
        ),
        store_after != store_before,
        !outbox_before.reachable,
    ensures
        outcome == HttpOutcome::InternalError,
        outbox_after == outbox_before,
        store_after.wf(),
        store_after.has_email(form.email),
        store_after.subscribers.last().status == SubscriberStatus::PendingConfirmation,
{
    let row = store_after.subscribers.last();
    let token = store_after.tokens.last().token;
    lemma_with_pending_wf(
        store_before,
        row.id,
        form.email,
        trimmed(form.name),
        row.subscribed_at,
        token,
    );
    let last = store_before.subscribers.len() as int;
    assert(store_after.subscribers[last].email == form.email);
}

/// Confirming with a token that the store knows is a success and leaves its
/// owner confirmed; confirming with the same token once more is a success
/// again and leaves the store as the first confirmation left it.
pub proof fn lemma_confirming_twice(store: Tables, token: Seq<char>)
    requires
        store.wf(),
        store.has_token(token),
    ensures
        carries_token(Some(token)),
        confirmation_outcome(store, Some(token)) == HttpOutcome::Success,
        confirmation_leaves(store, Some(token)).wf(),
        confirmation_leaves(store, Some(token)).owner(token)->0.status
            == SubscriberStatus::Confirmed,
        confirmation_outcome(confirmation_leaves(store, Some(token)), Some(token))
            == HttpOutcome::Success,
        confirmation_leaves(confirmation_leaves(store, Some(token)), Some(token))
            == confirmation_leaves(store, Some(token)),
{
    lemma_known_token(store, token);
    lemma_confirm_is_idempotent(store, token);
    lemma_with_confirmed_wf(store, token);
}

/// Confirming with a token that was never issued is unauthorized, and a
/// request without a well-formed token is a bad request; neither changes the
/// store.
pub proof fn lemma_unknown_token_is_turned_away(store: Tables, token: Option<Seq<char>>)
    requires
        !carries_token(token) || !store.has_token(token->0),
    ensures
        confirmation_leaves(store, token) == store,
        carries_token(token) ==> confirmation_outcome(store, token) == HttpOutcome::Unauthorized,
        !carries_token(token) ==> confirmation_outcome(store, token) == HttpOutcome::BadRequest,
{
}

} // verus!
