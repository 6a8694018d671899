//! Liveness.

use crate::routes::outcome::HttpOutcome;
use vstd::prelude::*;

verus! {

/// Answers a liveness probe: always success, whatever state the store and
/// the transport are in.
pub fn check_health() -> (outcome: HttpOutcome)
    ensures
        outcome == HttpOutcome::Success,
{
    HttpOutcome::Success
}

} // verus!
