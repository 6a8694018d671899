//! What a request ends in.

use vstd::prelude::*;

verus! {

/// Terminal result of handling one request.
#[derive(Clone, Copy, Debug, PartialEq, Eq, Structural)]
pub enum HttpOutcome {
    /// The request was carried out.
    Success,
    /// The request itself is at fault: a field or a parameter is missing or
    /// malformed.
    BadRequest,
    /// The request is well formed, but its token was never issued.
    Unauthorized,
    /// Storage or dispatch failed.
    InternalError,
}

pub open spec fn status_code_of(outcome: HttpOutcome) -> u16 {
    match outcome {
        HttpOutcome::Success => 200,
        HttpOutcome::BadRequest => 400,
        HttpOutcome::Unauthorized => 401,
        HttpOutcome::InternalError => 500,
    }
}

impl HttpOutcome {
    /// The HTTP status that reports this outcome.
    pub fn status_code(&self) -> (code: u16)
        ensures
            code == status_code_of(*self),
    {
        match self {
            HttpOutcome::Success => 200,
            HttpOutcome::BadRequest => 400,
            HttpOutcome::Unauthorized => 401,
            HttpOutcome::InternalError => 500,
        }
    }
}

} // verus!
