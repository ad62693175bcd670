//! The pool itself.

use std::sync::atomic::AtomicU64;
use std::sync::atomic::Ordering;
use vstd::prelude::*;
use wasmtime_fiber::FiberStack;
use crate::admission::{check_limit, conclude, reads_empty};
use crate::config::PoolingInstanceAllocatorConfig;
use crate::error::PoolError;
use crate::fiber::max_stack_size;

verus! {

/// Limits how many fiber stacks are live at once.
///
/// Nothing is pooled in the sense of being kept for reuse: every stack comes
/// fresh from the allocator and goes back to it. The pool only counts.
#[derive(Debug)]
pub struct StackPool {
    stack_size: usize,
    live_stacks: AtomicU64,
    stack_limit: u64,
}

impl StackPool {
    #[verifier::type_invariant]
    spec fn well_formed(&self) -> bool {
        self.stack_size <= max_stack_size()
    }

    /// Bytes per stack.
    pub closed spec fn stack_size(&self) -> usize {
        self.stack_size
    }

    /// The most stacks that may be live at once.
    pub closed spec fn stack_limit(&self) -> u64 {
        self.stack_limit
    }

    /// A pool with no stack live. The stack size must be one that the
    /// allocator can round up to whole pages.
    pub fn new(config: &PoolingInstanceAllocatorConfig) -> (pool: Self)
        requires
            config.stack_size <= max_stack_size(),
        ensures
            pool.stack_size() == config.stack_size,
            pool.stack_limit() == config.limits.total_stacks,
    {
        StackPool {
            stack_size: config.stack_size,
            live_stacks: AtomicU64::new(0),
            stack_limit: config.limits.total_stacks as u64,
        }
    }

    /// The counter as it stands at the moment of the call. While other
    /// callers are inside `allocate` it may read above the limit.
    pub fn live_count(&self) -> u64 {
        self.live_stacks.load(Ordering::Acquire)
    }

    /// Whether no stack was counted as live at the moment of the call. The
    /// answer is a snapshot: another caller may be about to count itself in.
    pub fn is_empty(&self) -> bool {
        reads_empty(self.live_count())
    }

    /// Takes back the one that a caller added to the counter.
    fn release_count(&self) {
        self.live_stacks.fetch_sub(1, Ordering::AcqRel);
    }

    /// Hands out a fresh stack, unless the pool is switched off, full, or the
    /// allocator fails.
    ///
    /// A pool with a stack size of zero fails at once and leaves the counter
    /// alone. Otherwise the caller counts itself in first and looks at the
    /// limit afterwards, so that callers race on one atomic addition and on
    /// nothing else. A caller that finds the limit reached, or that gets no
    /// stack from the allocator, takes its one back before it returns.
    pub fn allocate(&self) -> (r: Result<FiberStack, PoolError>)
        ensures
            self.stack_size() == 0 ==> r == Err::<FiberStack, PoolError>(
                PoolError::UnsupportedConfiguration,
            ),
            self.stack_size() != 0 && self.stack_limit() == 0 ==> r == Err::<FiberStack, PoolError>(
                PoolError::LimitExceeded { limit: 0 },
            ),
            self.stack_size() != 0 ==> {
                ||| r is Ok
                ||| r == Err::<FiberStack, PoolError>(
                    PoolError::LimitExceeded { limit: self.stack_limit() },
                )
                ||| (r is Err && r->Err_0 is AllocationFailed)
            },
    {
        proof {
            use_type_invariant(self);
        }
        if self.stack_size == 0 {
            return Err(PoolError::UnsupportedConfiguration);
        }
        let observed = self.live_stacks.fetch_add(1, Ordering::AcqRel);
        match check_limit(self.stack_limit, observed) {
            Err(e) => {
                self.release_count();
                Err(e)
            },
            Ok(()) => {
                let r = conclude(FiberStack::new(self.stack_size));
                if r.is_err() {
                    self.release_count();
                }
                r
            },
        }
    }

    /// Takes a stack back: the counter goes down by one and the stack's
    /// memory returns to the system.
    ///
    /// The stack must be one that `allocate` of this pool handed out. The pool
    /// cannot tell, and counts down whatever it is given.
    pub fn deallocate(&self, stack: FiberStack) {
        self.live_stacks.fetch_sub(1, Ordering::AcqRel);
        let _ = stack;
    }
}

} // verus!
