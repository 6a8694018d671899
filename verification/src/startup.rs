//! Settings that the request handlers are started with.

use vstd::prelude::*;

verus! {

/// The address under which the application is reached from outside; the
/// confirmation links are built on it.
pub struct ApplicationBaseUrl(pub String);

} // verus!
