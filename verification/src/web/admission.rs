//! Admission control: the pool of permits that bounds how many transforms
//! run at the same time.
//!
//! The pool is a counting semaphore, sized once to the configured limit. A
//! request waits on it without holding a thread, and is refused only when
//! the pool is closed for good. Waiting is bounded by the deadline of the
//! request alone: the pool has no queue limit of its own.

use crate::config::Config;
use tokio::sync::Semaphore;
use vstd::prelude::*;

verus! {

#[verifier::external_type_specification]
#[verifier::external_body]
pub struct ExSemaphore(Semaphore);

/// The number of permits that a pool was made with.
pub uninterp spec fn permits_made_with(pool: Semaphore) -> nat;

/// The most permits a pool can be made with: an eighth of the largest
/// `usize`, rounded down.
pub open spec fn max_permits() -> nat {
    (usize::MAX / 8) as nat
}

/// Calls `tokio::sync::Semaphore::new`, which panics on more permits than
/// `Semaphore::MAX_PERMITS`, that is `usize::MAX >> 3`. Not proved: that the
/// semaphore starts with the permits asked for.
#[verifier::external_body]
fn new_semaphore(permits: usize) -> (pool: Semaphore)
    requires
        permits <= max_permits(),
    ensures
        permits_made_with(pool) == permits,
{
    Semaphore::new(permits)
}

/// Makes the admission pool of a configuration, with as many permits as
/// transforms may run at the same time; none where the limit is more than
/// a pool can hold.
pub fn admission_pool(config: &Config) -> (pool: Option<Semaphore>)
    ensures
        match pool {
            Some(made) => config.concurrency_limit <= max_permits() && permits_made_with(made)
                == config.concurrency_limit,
            None => config.concurrency_limit > max_permits(),
        },
{
    if config.concurrency_limit <= usize::MAX / 8 {
        Some(new_semaphore(config.concurrency_limit))
    } else {
        None
    }
}

} // verus!
