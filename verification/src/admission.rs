//! The decisions that one call of `allocate` takes, on plain values.
//!
//! `allocate` learns two things from outside: what the shared counter held
//! when the call counted itself in, and what the stack allocator answered.
//! `is_empty` learns one: what the counter holds. The functions here say what
//! follows from each.

use vstd::prelude::*;
use wasmtime_fiber::FiberStack;
use crate::error::PoolError;

verus! {

/// Whether a caller that found `observed` stacks already counted may go on
/// to ask for a stack of its own.
pub open spec fn admits(stack_limit: int, observed: int) -> bool {
    observed < stack_limit
}

/// Whether a counter that reads `observed` shows no stack live.
pub open spec fn shows_empty(observed: int) -> bool {
    observed == 0
}

/// What an admitted caller returns once the allocator has answered.
pub open spec fn concluded(outcome: Result<FiberStack, std::io::Error>) -> Result<
    FiberStack,
    PoolError,
> {
    match outcome {
        Ok(stack) => Ok(stack),
        Err(e) => Err(PoolError::AllocationFailed(e)),
    }
}

/// Decides what becomes of a caller that has counted itself in and found
/// `observed` stacks counted before it: it goes on, or it is turned away
/// with the limit it ran into.
pub fn check_limit(stack_limit: u64, observed: u64) -> (r: Result<(), PoolError>)
    ensures
        admits(stack_limit as int, observed as int) ==> r == Ok::<(), PoolError>(()),
        !admits(stack_limit as int, observed as int) ==> r == Err::<(), PoolError>(
            PoolError::LimitExceeded { limit: stack_limit },
        ),
{
    if observed >= stack_limit {
        Err(PoolError::LimitExceeded { limit: stack_limit })
    } else {
        Ok(())
    }
}

/// Says whether a reading of the counter shows the pool empty: it does when
/// it is zero and at no other value.
pub fn reads_empty(observed: u64) -> (r: bool)
    ensures
        r == shows_empty(observed as int),
{
    observed == 0
}

/// Turns the allocator's answer into the caller's: a stack is passed on as it
/// is, a failure is wrapped with the allocator's error unchanged.
pub fn conclude(outcome: Result<FiberStack, std::io::Error>) -> (r: Result<FiberStack, PoolError>)
    ensures
        r == concluded(outcome),
{
    match outcome {
        Ok(stack) => Ok(stack),
        Err(e) => Err(PoolError::AllocationFailed(e)),
    }
}

} // verus!
