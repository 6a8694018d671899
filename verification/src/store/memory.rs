//! A subscriber store that keeps both tables in memory.

use crate::domain::NewSubscriber;
use crate::store::laws::{lemma_position_of, lemma_with_confirmed_wf, lemma_with_pending_wf};
use crate::store::model::{
    ConfirmOutcome,
    StoreError,
    SubscriberRow,
    SubscriberStatus,
    Tables,
    TokenRow,
};
use crate::token::{generate_subscription_token, is_issued_token, is_well_formed_token};
use vstd::prelude::*;

verus! {

/// A persisted subscriber.
#[derive(Debug)]
pub struct Subscriber {
    pub id: u128,
    pub email: String,
    pub name: String,
    pub subscribed_at: i64,
    pub status: SubscriberStatus,
}

impl View for Subscriber {
    type V = SubscriberRow;

    open spec fn view(&self) -> SubscriberRow {
        SubscriberRow {
            id: self.id,
            email: self.email@,
            name: self.name@,
            subscribed_at: self.subscribed_at,
            status: self.status,
        }
    }
}

struct TokenRecord {
    token: String,
    subscriber_id: u128,
}

impl View for TokenRecord {
    type V = TokenRow;

    closed spec fn view(&self) -> TokenRow {
        TokenRow { token: self.token@, subscriber_id: self.subscriber_id }
    }
}

/// Identifiers of version 4 carry the number 4 in their thirteenth
/// hexadecimal digit.
pub open spec fn is_random_identifier(id: u128) -> bool {
    (id / 0x1_0000_0000_0000_0000_000) % 16 == 4
}

/// Calls `Uuid::new_v4` and reads the identifier as a number with
/// `Uuid::as_u128`.
///
/// Trusted: whatever is drawn has the version number of random identifiers.
#[verifier::external_body]
fn fresh_subscriber_id() -> (id: u128)
    ensures
        is_random_identifier(id),
{
    uuid::Uuid::new_v4().as_u128()
}

/// Calls `Utc::now` and reads the instant as seconds since 1970 with
/// `DateTime::timestamp`. Nothing is claimed of the clock.
#[verifier::external_body]
fn current_timestamp() -> (seconds: i64) {
    chrono::Utc::now().timestamp()
}

/// Both tables of the store, kept in memory. A subscriber and its token
/// are written together, at the same position of the two tables.
pub struct SubscriberStore {
    subscribers: Vec<Subscriber>,
    tokens: Vec<TokenRecord>,
}

impl View for SubscriberStore {
    type V = Tables;

    closed spec fn view(&self) -> Tables {
        Tables {
            subscribers: Seq::new(self.subscribers@.len(), |i: int| self.subscribers@[i]@),
            tokens: Seq::new(self.tokens@.len(), |i: int| self.tokens@[i]@),
        }
    }
}

impl SubscriberStore {
    /// The store's tables obey the constraints of the schema.
    pub open spec fn wf(&self) -> bool {
        self@.wf()
    }

    pub fn new() -> (store: SubscriberStore)
        ensures
            store.wf(),
            store@ == Tables::empty(),
    {
        let store = SubscriberStore { subscribers: Vec::new(), tokens: Vec::new() };
        assert(store@.subscribers =~= Seq::empty());
        assert(store@.tokens =~= Seq::empty());
        store
    }

    /// Number of subscribers.
    pub fn len(&self) -> (n: usize)
        ensures
            n == self@.subscribers.len(),
    {
        self.subscribers.len()
    }

    /// The subscribers, in the order in which they were created.
    pub fn subscribers(&self) -> (rows: &Vec<Subscriber>)
        ensures
            rows@.len() == self@.subscribers.len(),
            forall|i: int| 0 <= i < rows@.len() ==> (#[trigger] rows@[i])@ == self@.subscribers[i],
    {
        &self.subscribers
    }

    fn position_of_email(&self, email: &str) -> (found: Option<usize>)
        ensures
            found is Some <==> self@.has_email(email@),
            found matches Some(i) ==> i < self@.subscribers.len() && self@.subscribers[i as int].email
                == email@,
    {
        let wanted = email.to_owned();
        let mut i: usize = 0;
        while i < self.subscribers.len()
            invariant
                i <= self.subscribers@.len(),
                wanted@ == email@,
                forall|j: int| 0 <= j < i ==> (#[trigger] self@.subscribers[j]).email != email@,
            decreases self.subscribers@.len() - i,
        {
            if self.subscribers[i].email == wanted {
                assert(self@.subscribers[i as int].email == email@);
                return Some(i);
            }
            i = i + 1;
        }
        None
    }

    fn position_of_id(&self, id: u128) -> (found: Option<usize>)
        ensures
            found is Some <==> self@.has_id(id),
            found matches Some(i) ==> i < self@.subscribers.len() && self@.subscribers[i as int].id
                == id,
    {
        let mut i: usize = 0;
        while i < self.subscribers.len()
            invariant
                i <= self.subscribers@.len(),
                forall|j: int| 0 <= j < i ==> (#[trigger] self@.subscribers[j]).id != id,
            decreases self.subscribers@.len() - i,
        {
            if self.subscribers[i].id == id {
                assert(self@.subscribers[i as int].id == id);
                return Some(i);
            }
            i = i + 1;
        }
        None
    }

    fn position_of_token(&self, token: &str) -> (found: Option<usize>)
        ensures
            found is Some <==> self@.has_token(token@),
            found matches Some(i) ==> i < self@.tokens.len() && self@.tokens[i as int].token
                == token@,
    {
        let wanted = token.to_owned();
        let mut i: usize = 0;
        while i < self.tokens.len()
            invariant
                i <= self.tokens@.len(),
                wanted@ == token@,
                forall|j: int| 0 <= j < i ==> (#[trigger] self@.tokens[j]).token != token@,
            decreases self.tokens@.len() - i,
        {
            if self.tokens[i].token == wanted {
                assert(self@.tokens[i as int].token == token@);
                return Some(i);
            }
            i = i + 1;
        }
        None
    }

    /// Writes a pending subscriber and its token, both or neither. The keys
    /// are given, and the token is one that a request can carry: the store
    /// says whether it admits them, and is unchanged where it does not.
    pub fn insert_pending(
        &mut self,
        subscriber: &NewSubscriber,
        id: u128,
        token: &str,
        subscribed_at: i64,
    ) -> (written: Result<(), StoreError>)
        requires
            old(self).wf(),
            is_well_formed_token(token@),
        ensures
            final(self).wf(),
            written == old(self)@.admits(id, subscriber.email@, token@),
            written is Ok ==> final(self)@ == old(self)@.with_pending(
                id,
                subscriber.email@,
                subscriber.name@,
                subscribed_at,
                token@,
            ),
            written is Err ==> final(self)@ == old(self)@,
    {
        let email = subscriber.email.as_str();
        let name = subscriber.name.as_str();
        if self.position_of_email(email).is_some() {
            return Err(StoreError::DuplicateSubscriber);
        }
        if self.position_of_id(id).is_some() || self.position_of_token(token).is_some() {
            return Err(StoreError::Storage);
        }
        let row = Subscriber {
            id,
            email: email.to_owned(),
            name: name.to_owned(),
            subscribed_at,
            status: SubscriberStatus::PendingConfirmation,
        };
        let record = TokenRecord { token: token.to_owned(), subscriber_id: id };
        self.subscribers.push(row);
        self.tokens.push(record);
        proof {
            let after = old(self)@.with_pending(
                id,
                subscriber.email@,
                subscriber.name@,
                subscribed_at,
                token@,
            );
            assert(self@.subscribers =~= after.subscribers);
            assert(self@.tokens =~= after.tokens);
            lemma_with_pending_wf(
                old(self)@,
                id,
                subscriber.email@,
                subscriber.name@,
                subscribed_at,
                token@,
            );
        }
        Ok(())
    }

    /// Creates a pending subscriber with a fresh identifier and a fresh
    /// token, stamped with the current time, as one unit. A known address is
    /// always refused as a duplicate and nothing else is. Whatever is drawn,
    /// the answer is the one the store gives for the identifier and the
    /// token that were drawn; whenever the subscriber is refused the store
    /// is unchanged.
    pub fn create_pending_subscriber(&mut self, subscriber: &NewSubscriber) -> (created: Result<
        (u128, String),
        StoreError,
    >)
        requires
            old(self).wf(),
        ensures
            final(self).wf(),
            created == Err::<(u128, String), StoreError>(StoreError::DuplicateSubscriber) <==> old(
                self,
            )@.has_email(subscriber.email@),
            created is Err ==> final(self)@ == old(self)@,
            created is Err ==> old(self)@.subscribers.len() > 0,
            exists|id: u128, token: Seq<char>|
                is_random_identifier(id) && is_issued_token(token) && match created {
                    Ok((drawn_id, drawn_token)) => drawn_id == id && drawn_token@ == token && (
                    #[trigger] old(self)@.admits(id, subscriber.email@, token)) is Ok,
                    Err(error) => old(self)@.admits(id, subscriber.email@, token) == Err::<
                        (),
                        StoreError,
                    >(error),
                },
            created matches Ok((id, token)) ==> {
                &&& is_random_identifier(id)
                &&& is_issued_token(token@)
                &&& old(self)@.admits(id, subscriber.email@, token@) is Ok
                &&& final(self)@ == old(self)@.with_pending(
                    id,
                    subscriber.email@,
                    subscriber.name@,
                    final(self)@.subscribers.last().subscribed_at,
                    token@,
                )
            },
    {
        let id = fresh_subscriber_id();
        let token = generate_subscription_token();
        let subscribed_at = current_timestamp();
        let written = self.insert_pending(subscriber, id, token.as_str(), subscribed_at);
        assert(written == old(self)@.admits(id, subscriber.email@, token@));
        match written {
            Ok(()) => Ok((id, token)),
            Err(error) => Err(error),
        }
    }

    /// Confirms the owner of `token`. A known token is answered with
    /// `Confirmed`, whether its owner was pending or confirmed already; an
    /// unknown one with `TokenNotFound`, and then nothing changes.
    pub fn confirm_by_token(&mut self, token: &str) -> (outcome: ConfirmOutcome)
        requires
            old(self).wf(),
        ensures
            final(self).wf(),
            outcome == old(self)@.confirm_outcome(token@),
            final(self)@ == old(self)@.with_confirmed(token@),
    {
        match self.position_of_token(token) {
            None => ConfirmOutcome::TokenNotFound,
            Some(i) => {
                proof {
                    lemma_position_of(self@, token@, i as int);
                    lemma_with_confirmed_wf(self@, token@);
                }
                let row = &self.subscribers[i];
                let updated = Subscriber {
                    id: row.id,
                    email: row.email.clone(),
                    name: row.name.clone(),
                    subscribed_at: row.subscribed_at,
                    status: SubscriberStatus::Confirmed,
                };
                self.subscribers.set(i, updated);
                proof {
                    let after = old(self)@.with_confirmed(token@);
                    assert(self@.subscribers =~= after.subscribers);
                    assert(self@.tokens =~= after.tokens);
                }
                ConfirmOutcome::Confirmed
            },
        }
    }

    /// The subscriber with this address, if there is one.
    pub fn find_by_email(&self, email: &str) -> (found: Option<&Subscriber>)
        ensures
            found is Some <==> self@.has_email(email@),
            found matches Some(row) ==> row@.email == email@ && exists|i: int|
                0 <= i < self@.subscribers.len() && #[trigger] self@.subscribers[i] == row@,
    {
        match self.position_of_email(email) {
            None => None,
            Some(i) => {
                assert(self@.subscribers[i as int] == self.subscribers@[i as int]@);
                Some(&self.subscribers[i])
            },
        }
    }

    /// The subscriber that `token` belongs to, if the token is known.
    pub fn find_by_token(&self, token: &str) -> (found: Option<&Subscriber>)
        requires
            self.wf(),
        ensures
            found is Some <==> self@.has_token(token@),
            found matches Some(row) ==> self@.owner(token@) == Some(row@),
    {
        match self.position_of_token(token) {
            None => None,
            Some(i) => {
                proof {
                    lemma_position_of(self@, token@, i as int);
                }
                Some(&self.subscribers[i])
            },
        }
    }

    /// The token that was issued to the subscriber `id`, if there is such a
    /// subscriber.
    pub fn token_of(&self, id: u128) -> (found: Option<&str>)
        requires
            self.wf(),
        ensures
            found is Some <==> self@.has_id(id),
            found matches Some(token) ==> self@.has_token(token@) && self@.owner(token@)->0.id == id,
    {
        match self.position_of_id(id) {
            None => None,
            Some(i) => {
                proof {
                    lemma_position_of(self@, self@.tokens[i as int].token, i as int);
                }
                Some(self.tokens[i].token.as_str())
            },
        }
    }
}

} // verus!
