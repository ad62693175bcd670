//! The stack allocator that the pool stands in front of.
//!
//! Nothing in this file is proved: it tells the verifier which outside types
//! and functions the pool uses and what the pool relies on.

use vstd::prelude::*;

verus! {

/// `wasmtime_fiber::FiberStack`: one execution stack. The pool never looks
/// inside; it only passes the value on.
#[verifier::external_type_specification]
#[verifier::external_body]
pub struct ExFiberStack(wasmtime_fiber::FiberStack);

/// `std::io::Error`, in which the allocator reports a failure.
#[verifier::external_type_specification]
#[verifier::external_body]
pub struct ExIoError(std::io::Error);

/// The largest stack size that the pool asks the allocator for.
pub open spec fn max_stack_size() -> int {
    isize::MAX as int
}

/// `wasmtime_fiber::FiberStack::new` maps a fresh stack of at least `size`
/// bytes with a guard page below it. Whether that succeeds is up to the
/// operating system, so nothing is claimed of the result. The bound on `size`
/// keeps the allocator's rounding to whole pages, and the guard page it adds,
/// inside `usize`.
pub assume_specification[ wasmtime_fiber::FiberStack::new ](size: usize) -> (stack: Result<
    wasmtime_fiber::FiberStack,
    std::io::Error,
>)
    requires
        size <= max_stack_size(),
;

} // verus!
