//! The two tables of the subscriber store as mathematical values, and the
//! rules that every storage backend has to follow.

use crate::token::is_well_formed_token;
use vstd::prelude::*;

verus! {

/// Where a subscriber stands. The only move there is goes from
/// `PendingConfirmation` to `Confirmed`.
#[derive(Clone, Copy, Debug, PartialEq, Eq, Structural)]
pub enum SubscriberStatus {
    PendingConfirmation,
    Confirmed,
}

/// The name under which a status is stored.
pub open spec fn status_text(status: SubscriberStatus) -> Seq<char> {
    match status {
        SubscriberStatus::PendingConfirmation => "pending_confirmation"@,
        SubscriberStatus::Confirmed => "confirmed"@,
    }
}

impl SubscriberStatus {
    pub fn as_str(&self) -> (text: &'static str)
        ensures
            text@ == status_text(*self),
    {
        match self {
            SubscriberStatus::PendingConfirmation => "pending_confirmation",
            SubscriberStatus::Confirmed => "confirmed",
        }
    }
}

/// Why the store did not create a subscriber.
#[derive(Clone, Copy, Debug, PartialEq, Eq, Structural)]
pub enum StoreError {
    /// A subscriber with the same address exists. Trying again cannot help.
    DuplicateSubscriber,
    /// The storage did not take the write. Trying again may help.
    Storage,
}

/// What became of an attempt to confirm by token.
#[derive(Clone, Copy, Debug, PartialEq, Eq, Structural)]
pub enum ConfirmOutcome {
    Confirmed,
    TokenNotFound,
}

/// One row of the subscriber table.
pub struct SubscriberRow {
    pub id: u128,
    pub email: Seq<char>,
    pub name: Seq<char>,
    pub subscribed_at: i64,
    pub status: SubscriberStatus,
}

/// One row of the token table: the token and the subscriber it belongs to.
pub struct TokenRow {
    pub token: Seq<char>,
    pub subscriber_id: u128,
}

/// Both tables, rows in the order in which they were written.
pub struct Tables {
    pub subscribers: Seq<SubscriberRow>,
    pub tokens: Seq<TokenRow>,
}

pub open spec fn pending_row(id: u128, email: Seq<char>, name: Seq<char>, subscribed_at: i64)
    -> SubscriberRow {
    SubscriberRow { id, email, name, subscribed_at, status: SubscriberStatus::PendingConfirmation }
}

pub open spec fn confirmed(row: SubscriberRow) -> SubscriberRow {
    SubscriberRow { status: SubscriberStatus::Confirmed, ..row }
}

impl Tables {
    pub open spec fn empty() -> Tables {
        Tables { subscribers: Seq::empty(), tokens: Seq::empty() }
    }

    pub open spec fn has_id(self, id: u128) -> bool {
        exists|i: int| 0 <= i < self.subscribers.len() && (#[trigger] self.subscribers[i]).id == id
    }

    pub open spec fn has_email(self, email: Seq<char>) -> bool {
        exists|i: int|
            0 <= i < self.subscribers.len() && (#[trigger] self.subscribers[i]).email == email
    }

    pub open spec fn has_token(self, token: Seq<char>) -> bool {
        exists|i: int| 0 <= i < self.tokens.len() && (#[trigger] self.tokens[i]).token == token
    }

    /// The constraints of the schema. Every subscriber is written together
    /// with its one token, so the two tables pair up row by row; identifiers,
    /// addresses and tokens are unique; and every token is one that a
    /// request can carry.
    pub open spec fn wf(self) -> bool {
        &&& self.tokens.len() == self.subscribers.len()
        &&& forall|i: int|
            0 <= i < self.tokens.len() ==> is_well_formed_token((#[trigger] self.tokens[i]).token)
        &&& forall|i: int|
            0 <= i < self.tokens.len() ==> (#[trigger] self.tokens[i]).subscriber_id
                == self.subscribers[i].id
        &&& forall|i: int, j: int|
            0 <= i < j < self.subscribers.len() ==> (#[trigger] self.subscribers[i]).id != (
            #[trigger] self.subscribers[j]).id
        &&& forall|i: int, j: int|
            0 <= i < j < self.subscribers.len() ==> (#[trigger] self.subscribers[i]).email != (
            #[trigger] self.subscribers[j]).email
        &&& forall|i: int, j: int|
            0 <= i < j < self.tokens.len() ==> (#[trigger] self.tokens[i]).token != (
            #[trigger] self.tokens[j]).token
    }

    /// Position of the row that holds `token`, where there is one.
    pub open spec fn position_of(self, token: Seq<char>) -> int {
        choose|i: int| 0 <= i < self.tokens.len() && (#[trigger] self.tokens[i]).token == token
    }

    /// The subscriber that `token` belongs to.
    pub open spec fn owner(self, token: Seq<char>) -> Option<SubscriberRow> {
        if self.has_token(token) {
            Some(self.subscribers[self.position_of(token)])
        } else {
            None
        }
    }

    /// Whether the store takes a new subscriber with these keys. A known
    /// address comes first; a used identifier or token is a refused write.
    pub open spec fn admits(self, id: u128, email: Seq<char>, token: Seq<char>) -> Result<
        (),
        StoreError,
    > {
        if self.has_email(email) {
            Err(StoreError::DuplicateSubscriber)
        } else if self.has_id(id) || self.has_token(token) {
            Err(StoreError::Storage)
        } else {
            Ok(())
        }
    }

    /// The tables after a pending subscriber and its token were written, as
    /// one unit.
    pub open spec fn with_pending(
        self,
        id: u128,
        email: Seq<char>,
        name: Seq<char>,
        subscribed_at: i64,
        token: Seq<char>,
    ) -> Tables {
        Tables {
            subscribers: self.subscribers.push(pending_row(id, email, name, subscribed_at)),
            tokens: self.tokens.push(TokenRow { token, subscriber_id: id }),
        }
    }

    pub open spec fn confirm_outcome(self, token: Seq<char>) -> ConfirmOutcome {
        if self.has_token(token) {
            ConfirmOutcome::Confirmed
        } else {
            ConfirmOutcome::TokenNotFound
        }
    }

    /// The tables after `token` was presented: its owner is confirmed, and
    /// nothing else has changed. An unknown token changes nothing.
    pub open spec fn with_confirmed(self, token: Seq<char>) -> Tables {
        if self.has_token(token) {
            let i = self.position_of(token);
            Tables {
                subscribers: self.subscribers.update(i, confirmed(self.subscribers[i])),
                tokens: self.tokens,
            }
        } else {
            self
        }
    }

    /// `later` may follow `self` in the life of a store: no row was lost or
    /// rewritten, no token was lost or moved, and no subscriber went back
    /// from confirmed to pending.
    pub open spec fn precedes(self, later: Tables) -> bool {
        &&& self.subscribers.len() <= later.subscribers.len()
        &&& self.tokens.len() <= later.tokens.len()
        &&& forall|i: int|
            0 <= i < self.tokens.len() ==> #[trigger] later.tokens[i] == self.tokens[i]
        &&& forall|i: int|
            0 <= i < self.subscribers.len() ==> {
                let before = #[trigger] self.subscribers[i];
                let after = later.subscribers[i];
                after == before || (before.status == SubscriberStatus::PendingConfirmation
                    && after == confirmed(before))
            }
    }
}

} // verus!
