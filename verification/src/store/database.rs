//! Reading the answers of a database that keeps the two tables.

use crate::store::model::{ConfirmOutcome, StoreError};
use vstd::prelude::*;

verus! {

/// The name of the constraint that keeps addresses unique.
pub open spec fn email_constraint() -> Seq<char> {
    "subscriptions_email_key"@
}

/// What a failed write of a subscriber means: a duplicate where the
/// database reports that the constraint on addresses was violated, a
/// storage failure in every other case.
pub open spec fn store_failure(unique_violation: bool, constraint: Option<Seq<char>>)
    -> StoreError {
    if unique_violation && constraint == Some(email_constraint()) {
        StoreError::DuplicateSubscriber
    } else {
        StoreError::Storage
    }
}

/// What the number of rows that a confirmation wrote means: no row, no
/// owner, so the token is unknown; otherwise the owner is confirmed.
pub open spec fn update_outcome(rows_affected: u64) -> ConfirmOutcome {
    if rows_affected == 0 {
        ConfirmOutcome::TokenNotFound
    } else {
        ConfirmOutcome::Confirmed
    }
}

/// Reads a failed write of a subscriber, given whether the database
/// reported a violated uniqueness constraint and which one.
pub fn classify_store_failure(unique_violation: bool, constraint: Option<&str>) -> (error:
    StoreError)
    ensures
        error == store_failure(
            unique_violation,
            match constraint {
                Some(name) => Some(name@),
                None => None,
            },
        ),
{
    match constraint {
        Some(name) => {
            let on_email = name.to_owned() == "subscriptions_email_key".to_owned();
            if unique_violation && on_email {
                StoreError::DuplicateSubscriber
            } else {
                StoreError::Storage
            }
        },
        None => StoreError::Storage,
    }
}

/// Reads the number of rows that a confirmation wrote.
pub fn outcome_of_update(rows_affected: u64) -> (outcome: ConfirmOutcome)
    ensures
        outcome == update_outcome(rows_affected),
{
    if rows_affected == 0 {
        ConfirmOutcome::TokenNotFound
    } else {
        ConfirmOutcome::Confirmed
    }
}

} // verus!
