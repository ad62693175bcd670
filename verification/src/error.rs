//! Why a stack could not be handed out.

use vstd::prelude::*;

verus! {

/// The ways in which `StackPool::allocate` fails.
#[derive(Debug)]
pub enum PoolError {
    /// The pool was configured with a stack size of zero.
    UnsupportedConfiguration,
    /// As many stacks as the pool allows were already counted as live.
    LimitExceeded { limit: u64 },
    /// The operating system would not provide the memory. The error is the
    /// allocator's own, untouched.
    AllocationFailed(std::io::Error),
}

} // verus!
