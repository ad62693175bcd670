//! A bounded pool of fiber stacks.
//!
//! The pool hands out execution stacks of one fixed size and keeps the number
//! of stacks that are live at any one time under a configured limit. It owns
//! no lock: callers on any number of threads meet on a single atomic counter.
//!
//! What is proved, and where:
//! - `pool` holds `StackPool`. Its contracts say what each call returns as far
//!   as the pool's settings decide it. What the counter holds at any moment
//!   depends on the other callers, and no contract speaks of it.
//! - `admission` holds the decisions of one call on plain values, each with an
//!   exact contract: what follows from the count that a caller read, and what
//!   follows from the allocator's answer.
//! - `protocol` states the counting protocol as a state machine and proves
//!   what holds of every interleaving of callers.
//! - `fiber` names the outside allocator. Its contract is assumed.

pub mod admission;
pub mod config;
pub mod error;
pub mod fiber;
pub mod pool;
pub mod protocol;

pub use config::{InstanceLimits, PoolingInstanceAllocatorConfig};
pub use error::PoolError;
pub use pool::StackPool;
