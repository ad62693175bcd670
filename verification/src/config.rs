//! What a pool is built from.

use vstd::prelude::*;

verus! {

/// Upper bounds on what one allocator may hold at a time.
#[derive(Clone, Copy, Debug)]
pub struct InstanceLimits {
    /// How many fiber stacks may be live at once.
    pub total_stacks: u32,
}

/// Settings of the pooling allocator that the stack pool reads.
#[derive(Clone, Copy, Debug)]
pub struct PoolingInstanceAllocatorConfig {
    /// Bytes per stack. Zero switches fiber stacks off.
    pub stack_size: usize,
    pub limits: InstanceLimits,
}

} // verus!
