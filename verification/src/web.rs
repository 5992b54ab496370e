//! The request pipeline: format negotiation, cache validation, and the
//! sequence of decisions that answers one image request.

pub mod admission;
pub mod etag;
pub mod handlers;
pub mod negotiation;
pub mod response;

use vstd::prelude::*;

verus! {

/// The deadline of one request, in seconds. It covers the whole pipeline,
/// the wait for admission included. A transform that already runs when the
/// deadline passes is not stopped: it runs to its end and holds its permit
/// until then.
pub const REQUEST_DEADLINE_SECS: u64 = 5;

} // verus!
