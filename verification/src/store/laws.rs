//! What holds of the store's tables whatever backend keeps them.

use crate::store::model::{confirmed, pending_row, ConfirmOutcome, SubscriberStatus, Tables};
use crate::token::is_well_formed_token;
use vstd::prelude::*;

verus! {

/// In well-formed tables a token stands in one row only, so the row found
/// for it is the row it was written to.
pub proof fn lemma_position_of(tables: Tables, token: Seq<char>, i: int)
    requires
        tables.wf(),
        0 <= i < tables.tokens.len(),
        tables.tokens[i].token == token,
    ensures
        tables.has_token(token),
        tables.position_of(token) == i,
        tables.owner(token) == Some(tables.subscribers[i]),
{
    let j = tables.position_of(token);
    assert(0 <= j < tables.tokens.len() && tables.tokens[j].token == token);
    if j < i {
        assert(tables.tokens[j].token != tables.tokens[i].token);
    } else if i < j {
        assert(tables.tokens[i].token != tables.tokens[j].token);
    }
}

/// A token that is known is one that a request can carry; it has an owner,
/// and its row pairs with the owner's.
pub proof fn lemma_known_token(tables: Tables, token: Seq<char>)
    requires
        tables.wf(),
        tables.has_token(token),
    ensures
        is_well_formed_token(token),
        0 <= tables.position_of(token) < tables.subscribers.len(),
        tables.tokens[tables.position_of(token)].token == token,
        tables.tokens[tables.position_of(token)].subscriber_id == tables.owner(token)->0.id,
{
}

/// Writing an admitted subscriber keeps the schema's constraints.
pub proof fn lemma_with_pending_wf(
    tables: Tables,
    id: u128,
    email: Seq<char>,
    name: Seq<char>,
    subscribed_at: i64,
    token: Seq<char>,
)
    requires
        tables.wf(),
        is_well_formed_token(token),
        tables.admits(id, email, token) is Ok,
    ensures
        tables.with_pending(id, email, name, subscribed_at, token).wf(),
{
    let after = tables.with_pending(id, email, name, subscribed_at, token);
    let n = tables.subscribers.len() as int;
    assert forall|i: int| 0 <= i < after.tokens.len() implies is_well_formed_token(
        (#[trigger] after.tokens[i]).token,
    ) by {
        if i < n {
            assert(after.tokens[i] == tables.tokens[i]);
        }
    }
    assert forall|i: int, j: int| 0 <= i < j < after.subscribers.len() implies (
    #[trigger] after.subscribers[i]).id != (#[trigger] after.subscribers[j]).id by {
        if j == n {
            assert(after.subscribers[i] == tables.subscribers[i]);
        } else {
            assert(after.subscribers[i] == tables.subscribers[i]);
            assert(after.subscribers[j] == tables.subscribers[j]);
        }
    }
    assert forall|i: int, j: int| 0 <= i < j < after.subscribers.len() implies (
    #[trigger] after.subscribers[i]).email != (#[trigger] after.subscribers[j]).email by {
        if j == n {
            assert(after.subscribers[i] == tables.subscribers[i]);
        } else {
            assert(after.subscribers[i] == tables.subscribers[i]);
            assert(after.subscribers[j] == tables.subscribers[j]);
        }
    }
    assert forall|i: int, j: int| 0 <= i < j < after.tokens.len() implies (
    #[trigger] after.tokens[i]).token != (#[trigger] after.tokens[j]).token by {
        if j == n {
            assert(after.tokens[i] == tables.tokens[i]);
        } else {
            assert(after.tokens[i] == tables.tokens[i]);
            assert(after.tokens[j] == tables.tokens[j]);
        }
    }
    assert forall|i: int| 0 <= i < after.tokens.len() implies (
    #[trigger] after.tokens[i]).subscriber_id == after.subscribers[i].id by {
        if i < n {
            assert(after.tokens[i] == tables.tokens[i]);
            assert(after.subscribers[i] == tables.subscribers[i]);
        }
    }
}

/// Confirming keeps the schema's constraints.
pub proof fn lemma_with_confirmed_wf(tables: Tables, token: Seq<char>)
    requires
        tables.wf(),
    ensures
        tables.with_confirmed(token).wf(),
{
    if tables.has_token(token) {
        let after = tables.with_confirmed(token);
        let k = tables.position_of(token);
        assert forall|i: int, j: int| 0 <= i < j < after.subscribers.len() implies (
        #[trigger] after.subscribers[i]).id != (#[trigger] after.subscribers[j]).id by {
            assert(after.subscribers[i].id == tables.subscribers[i].id);
            assert(after.subscribers[j].id == tables.subscribers[j].id);
        }
        assert forall|i: int, j: int| 0 <= i < j < after.subscribers.len() implies (
        #[trigger] after.subscribers[i]).email != (#[trigger] after.subscribers[j]).email by {
            assert(after.subscribers[i].email == tables.subscribers[i].email);
            assert(after.subscribers[j].email == tables.subscribers[j].email);
        }
        assert forall|i: int| 0 <= i < after.tokens.len() implies (
        #[trigger] after.tokens[i]).subscriber_id == after.subscribers[i].id by {
            assert(after.subscribers[i].id == tables.subscribers[i].id);
        }
    }
}

/// After an admitted subscriber was written there is exactly one row with
/// its address, that row is pending, exactly one token belongs to it, and
/// that token leads back to it.
pub proof fn lemma_created_once(
    tables: Tables,
    id: u128,
    email: Seq<char>,
    name: Seq<char>,
    subscribed_at: i64,
    token: Seq<char>,
)
    requires
        tables.wf(),
        is_well_formed_token(token),
        tables.admits(id, email, token) is Ok,
    ensures
        ({
            let after = tables.with_pending(id, email, name, subscribed_at, token);
            let last = tables.subscribers.len() as int;
            &&& after.subscribers.len() == tables.subscribers.len() + 1
            &&& after.tokens.len() == tables.tokens.len() + 1
            &&& after.subscribers[last] == pending_row(id, email, name, subscribed_at)
            &&& after.owner(token) == Some(pending_row(id, email, name, subscribed_at))
            &&& forall|i: int|
                0 <= i < after.subscribers.len() && (#[trigger] after.subscribers[i]).email
                    == email ==> i == last
            &&& forall|i: int|
                0 <= i < after.tokens.len() && (#[trigger] after.tokens[i]).subscriber_id == id
                    ==> i == last
        }),
{
    let after = tables.with_pending(id, email, name, subscribed_at, token);
    let last = tables.subscribers.len() as int;
    lemma_with_pending_wf(tables, id, email, name, subscribed_at, token);
    lemma_position_of(after, token, last);
    assert forall|i: int|
        0 <= i < after.subscribers.len() && (#[trigger] after.subscribers[i]).email
            == email implies i == last by {
        if i < last {
            assert(after.subscribers[i] == tables.subscribers[i]);
            assert(tables.has_email(email));
        }
    }
    assert forall|i: int|
        0 <= i < after.tokens.len() && (#[trigger] after.tokens[i]).subscriber_id
            == id implies i == last by {
        if i < last {
            assert(after.tokens[i] == tables.tokens[i]);
            assert(tables.subscribers[i].id == id);
            assert(tables.has_id(id));
        }
    }
}

/// Presenting a known token confirms its owner and reports `Confirmed`;
/// presenting it once more reports `Confirmed` again and changes nothing.
pub proof fn lemma_confirm_is_idempotent(tables: Tables, token: Seq<char>)
    requires
        tables.wf(),
        tables.has_token(token),
    ensures
        tables.confirm_outcome(token) == ConfirmOutcome::Confirmed,
        tables.with_confirmed(token).owner(token) == Some(confirmed(tables.owner(token)->0)),
        tables.with_confirmed(token).owner(token)->0.status == SubscriberStatus::Confirmed,
        tables.with_confirmed(token).confirm_outcome(token) == ConfirmOutcome::Confirmed,
        tables.with_confirmed(token).with_confirmed(token) == tables.with_confirmed(token),
{
    let once = tables.with_confirmed(token);
    let k = tables.position_of(token);
    lemma_with_confirmed_wf(tables, token);
    assert(once.tokens[k].token == token);
    lemma_position_of(once, token, k);
    let twice = once.with_confirmed(token);
    assert(twice.subscribers =~= once.subscribers);
}

/// Presenting a token that was never issued reports `TokenNotFound` and
/// leaves both tables as they were.
pub proof fn lemma_unknown_token_changes_nothing(tables: Tables, token: Seq<char>)
    requires
        !tables.has_token(token),
    ensures
        tables.confirm_outcome(token) == ConfirmOutcome::TokenNotFound,
        tables.with_confirmed(token) == tables,
{
}

/// Confirming by one token leaves the owner of every other token alone.
pub proof fn lemma_confirm_touches_owner_only(tables: Tables, token: Seq<char>, other: Seq<char>)
    requires
        tables.wf(),
        other != token,
    ensures
        tables.with_confirmed(token).has_token(other) == tables.has_token(other),
        tables.with_confirmed(token).owner(other) == tables.owner(other),
{
    if tables.has_token(token) {
        let after = tables.with_confirmed(token);
        let k = tables.position_of(token);
        if tables.has_token(other) {
            let j = tables.position_of(other);
            assert(after.tokens[j].token == other);
            lemma_with_confirmed_wf(tables, token);
            lemma_position_of(after, other, j);
        }
        if after.has_token(other) {
            let j = after.position_of(other);
            assert(tables.tokens[j].token == other);
        }
    }
}

/// Both writes move a store forward: rows stay, tokens stay, and a status
/// only ever goes from pending to confirmed.
pub proof fn lemma_writes_move_forward(
    tables: Tables,
    id: u128,
    email: Seq<char>,
    name: Seq<char>,
    subscribed_at: i64,
    token: Seq<char>,
)
    requires
        tables.wf(),
    ensures
        tables.precedes(tables),
        tables.precedes(tables.with_pending(id, email, name, subscribed_at, token)),
        tables.precedes(tables.with_confirmed(token)),
{
    let created = tables.with_pending(id, email, name, subscribed_at, token);
    assert forall|i: int| 0 <= i < tables.subscribers.len() implies {
        let before = #[trigger] tables.subscribers[i];
        created.subscribers[i] == before
    } by {}
    if tables.has_token(token) {
        let after = tables.with_confirmed(token);
        let k = tables.position_of(token);
        assert forall|i: int| 0 <= i < tables.subscribers.len() implies {
            let before = #[trigger] tables.subscribers[i];
            let later = after.subscribers[i];
            later == before || (before.status == SubscriberStatus::PendingConfirmation && later
                == confirmed(before))
        } by {
            if i == k {
                let before = tables.subscribers[i];
                if before.status == SubscriberStatus::Confirmed {
                    assert(confirmed(before) == before);
                }
            }
        }
    }
}

/// Moving forward is transitive: however many writes lie between two states
/// of a store, no confirmed subscriber is pending again.
pub proof fn lemma_precedes_is_transitive(first: Tables, second: Tables, third: Tables)
    requires
        first.precedes(second),
        second.precedes(third),
    ensures
        first.precedes(third),
{
    assert forall|i: int| 0 <= i < first.tokens.len() implies #[trigger] third.tokens[i]
        == first.tokens[i] by {
        assert(second.tokens[i] == first.tokens[i]);
    }
    assert forall|i: int| 0 <= i < first.subscribers.len() implies {
        let before = #[trigger] first.subscribers[i];
        let after = third.subscribers[i];
        after == before || (before.status == SubscriberStatus::PendingConfirmation && after
            == confirmed(before))
    } by {
        let a = first.subscribers[i];
        let b = second.subscribers[i];
        let c = third.subscribers[i];
        assert(b == a || (a.status == SubscriberStatus::PendingConfirmation && b == confirmed(a)));
        assert(c == b || (b.status == SubscriberStatus::PendingConfirmation && c == confirmed(b)));
    }
}

} // verus!
