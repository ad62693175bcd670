//! The counting protocol, as a state machine over ghost values.
//!
//! The pool's counter is shared memory: between two steps of one caller any
//! number of other callers may move it, so no contract of `StackPool` can
//! say what it holds. What can be said is said here, of the protocol itself.
//! A `PoolState` is a snapshot of a pool in use; a `Step` is one indivisible
//! action of one caller; a run is any interleaving of such steps. The lemmas
//! hold of every run. They are about this state machine: that `StackPool`
//! takes exactly these steps is read off its code, not proved.
//!
//! The counter has 64 bits. The state machine counts in `int` and leaves out
//! runs in which the real counter would wrap, which would take `u64::MAX`
//! callers inside `allocate` at one moment.

use vstd::prelude::*;
use crate::admission::{admits, shows_empty};

verus! {

/// One indivisible action of one caller.
pub enum Step {
    /// `allocate` on a pool whose stack size is zero: the call returns
    /// `UnsupportedConfiguration` and touches nothing.
    Unsupported,
    /// `allocate` adds one to the counter and reads what it held before.
    Enter,
    /// A caller that read a count at or above the limit takes its one back
    /// and returns `LimitExceeded`.
    Refuse,
    /// The allocator gave an admitted caller its stack; the call returns it.
    Succeed,
    /// The allocator failed an admitted caller, who takes its one back and
    /// returns `AllocationFailed`.
    Fail,
    /// `deallocate` subtracts one from the counter for a stack handed back.
    Release,
}

/// A pool in use, at one instant.
pub struct PoolState {
    pub stack_size: usize,
    pub stack_limit: u64,
    /// What the counter holds.
    pub live_count: int,
    /// Stacks in callers' hands: handed out and not yet handed back.
    pub held: nat,
    /// Callers inside `allocate` that read a count below the limit and have
    /// not heard from the allocator yet.
    pub admitted: nat,
    /// Callers inside `allocate` that read a count at or above the limit and
    /// have not taken their one back yet.
    pub refused: nat,
}

impl PoolState {
    /// A pool right after `StackPool::new`.
    pub open spec fn fresh(stack_size: usize, stack_limit: u64) -> PoolState {
        PoolState { stack_size, stack_limit, live_count: 0, held: 0, admitted: 0, refused: 0 }
    }

    /// No call is under way.
    pub open spec fn at_rest(self) -> bool {
        self.admitted == 0 && self.refused == 0
    }

    /// What `StackPool::is_empty` would answer now.
    pub open spec fn is_empty(self) -> bool {
        shows_empty(self.live_count)
    }

    /// Whether a caller can take `step` now. A caller may only hand back a
    /// stack that it holds.
    pub open spec fn enabled(self, step: Step) -> bool {
        match step {
            Step::Unsupported => self.stack_size == 0,
            Step::Enter => self.stack_size != 0 && self.live_count < u64::MAX,
            Step::Refuse => self.refused > 0,
            Step::Succeed => self.admitted > 0,
            Step::Fail => self.admitted > 0,
            Step::Release => self.held > 0,
        }
    }

    /// The state after `step`.
    pub open spec fn step(self, step: Step) -> PoolState {
        match step {
            Step::Unsupported => self,
            Step::Enter => if admits(self.stack_limit as int, self.live_count) {
                PoolState { live_count: self.live_count + 1, admitted: self.admitted + 1, ..self }
            } else {
                PoolState { live_count: self.live_count + 1, refused: self.refused + 1, ..self }
            },
            Step::Refuse => PoolState {
                live_count: self.live_count - 1,
                refused: (self.refused - 1) as nat,
                ..self
            },
            Step::Succeed => PoolState {
                admitted: (self.admitted - 1) as nat,
                held: self.held + 1,
                ..self
            },
            Step::Fail => PoolState {
                live_count: self.live_count - 1,
                admitted: (self.admitted - 1) as nat,
                ..self
            },
            Step::Release => PoolState {
                live_count: self.live_count - 1,
                held: (self.held - 1) as nat,
                ..self
            },
        }
    }

    /// The state after `steps`, taken in order.
    pub open spec fn run(self, steps: Seq<Step>) -> PoolState
        decreases steps.len(),
    {
        if steps.len() == 0 {
            self
        } else {
            self.run(steps.drop_last()).step(steps.last())
        }
    }

    /// Whether `steps` can be taken in order, each enabled when its turn
    /// comes.
    pub open spec fn feasible(self, steps: Seq<Step>) -> bool
        decreases steps.len(),
    {
        steps.len() == 0 || (self.feasible(steps.drop_last()) && self.run(
            steps.drop_last(),
        ).enabled(steps.last()))
    }

    /// The books balance: the counter holds one for every stack in a caller's
    /// hands and one for every caller inside `allocate`, and the stacks held
    /// or about to be asked for are within the limit.
    pub open spec fn consistent(self) -> bool {
        &&& self.live_count == self.held + self.admitted + self.refused
        &&& self.held + self.admitted <= self.stack_limit
    }

    /// Whether `steps`, taken on a fresh pool with the same settings, lead to
    /// this state.
    pub open spec fn reached_by(self, steps: Seq<Step>) -> bool {
        let fresh = PoolState::fresh(self.stack_size, self.stack_limit);
        fresh.feasible(steps) && fresh.run(steps) == self
    }
}

/// The fresh state is consistent, at rest and empty.
pub proof fn lemma_fresh_pool(stack_size: usize, stack_limit: u64)
    ensures
        PoolState::fresh(stack_size, stack_limit).consistent(),
        PoolState::fresh(stack_size, stack_limit).at_rest(),
        PoolState::fresh(stack_size, stack_limit).is_empty(),
{
}

/// No enabled step breaks consistency, and none changes the settings.
pub proof fn lemma_step_keeps_consistent(s: PoolState, step: Step)
    requires
        s.consistent(),
        s.enabled(step),
    ensures
        s.step(step).consistent(),
        s.step(step).stack_size == s.stack_size,
        s.step(step).stack_limit == s.stack_limit,
{
}

/// No run breaks consistency, and none changes the settings.
pub proof fn lemma_run_keeps_consistent(s: PoolState, steps: Seq<Step>)
    requires
        s.consistent(),
        s.feasible(steps),
    ensures
        s.run(steps).consistent(),
        s.run(steps).stack_size == s.stack_size,
        s.run(steps).stack_limit == s.stack_limit,
    decreases steps.len(),
{
    if steps.len() > 0 {
        lemma_run_keeps_consistent(s, steps.drop_last());
        lemma_step_keeps_consistent(s.run(steps.drop_last()), steps.last());
    }
}

/// Every state that a run from the fresh state reaches is consistent.
pub proof fn lemma_reached_is_consistent(s: PoolState, steps: Seq<Step>)
    requires
        s.reached_by(steps),
    ensures
        s.consistent(),
{
    lemma_run_keeps_consistent(PoolState::fresh(s.stack_size, s.stack_limit), steps);
}

/// However the callers' steps interleave, in every state that a run reaches
/// with no call under way the counter equals the number of stacks in callers'
/// hands and lies between zero and the limit.
pub proof fn lemma_count_at_rest(s: PoolState, steps: Seq<Step>)
    requires
        s.reached_by(steps),
        s.at_rest(),
    ensures
        s.live_count == s.held,
        0 <= s.live_count <= s.stack_limit,
{
    lemma_reached_is_consistent(s, steps);
}

/// In every state that a run reaches the counter is at least zero, and above
/// the limit by no more than the number of refused callers that have yet to
/// take their one back.
pub proof fn lemma_overshoot_is_in_flight(s: PoolState, steps: Seq<Step>)
    requires
        s.reached_by(steps),
    ensures
        0 <= s.live_count <= s.stack_limit + s.refused,
{
    lemma_reached_is_consistent(s, steps);
}

/// In a state that a run reaches with as many stacks held or being asked for
/// as the limit allows, a caller that enters joins the refused: the only step
/// left to it is `Refuse`.
pub proof fn lemma_entry_at_limit_is_refused(s: PoolState, steps: Seq<Step>)
    requires
        s.reached_by(steps),
        s.held + s.admitted == s.stack_limit,
    ensures
        s.step(Step::Enter).refused == s.refused + 1,
        s.step(Step::Enter).admitted == s.admitted,
        s.step(Step::Enter).held == s.held,
{
    lemma_reached_is_consistent(s, steps);
}

/// From a state that a run reaches with as many stacks in callers' hands as
/// the limit allows, no continuation holds a `Succeed` before its first
/// `Release`, however many callers enter and however their steps interleave.
pub proof fn lemma_full_pool_hands_out_nothing(s: PoolState, steps: Seq<Step>, more: Seq<Step>)
    requires
        s.reached_by(steps),
        s.held == s.stack_limit,
        s.feasible(more),
        forall|i: int| 0 <= i < more.len() ==> !(#[trigger] more[i] is Release),
    ensures
        forall|i: int| 0 <= i < more.len() ==> !(#[trigger] more[i] is Succeed),
        s.run(more).held == s.stack_limit,
{
    lemma_reached_is_consistent(s, steps);
    lemma_full_stays_full(s, more);
}

proof fn lemma_full_stays_full(s: PoolState, more: Seq<Step>)
    requires
        s.consistent(),
        s.held == s.stack_limit,
        s.feasible(more),
        forall|i: int| 0 <= i < more.len() ==> !(#[trigger] more[i] is Release),
    ensures
        forall|i: int| 0 <= i < more.len() ==> !(#[trigger] more[i] is Succeed),
        s.run(more).held == s.stack_limit,
        s.run(more).stack_limit == s.stack_limit,
        s.run(more).consistent(),
    decreases more.len(),
{
    if more.len() > 0 {
        let front = more.drop_last();
        assert forall|i: int| 0 <= i < front.len() implies !(#[trigger] front[i] is Release) by {
            assert(front[i] == more[i]);
        }
        lemma_full_stays_full(s, front);
        lemma_step_keeps_consistent(s.run(front), more.last());
        assert forall|i: int| 0 <= i < more.len() implies !(#[trigger] more[i] is Succeed) by {
            if i < front.len() {
                assert(front[i] == more[i]);
            }
        }
    }
}

/// With a stack size of zero every step of a run is `Unsupported`, and the
/// run ends in the fresh state it began in: the counter is never moved.
pub proof fn lemma_switched_off_pool_never_counts(s: PoolState, steps: Seq<Step>)
    requires
        s.reached_by(steps),
        s.stack_size == 0,
    ensures
        forall|i: int| 0 <= i < steps.len() ==> #[trigger] steps[i] is Unsupported,
        s == PoolState::fresh(s.stack_size, s.stack_limit),
        s.live_count == 0,
{
    lemma_switched_off_run(PoolState::fresh(s.stack_size, s.stack_limit), steps);
}

proof fn lemma_switched_off_run(fresh: PoolState, steps: Seq<Step>)
    requires
        fresh == PoolState::fresh(0, fresh.stack_limit),
        fresh.feasible(steps),
    ensures
        forall|i: int| 0 <= i < steps.len() ==> #[trigger] steps[i] is Unsupported,
        fresh.run(steps) == fresh,
    decreases steps.len(),
{
    if steps.len() > 0 {
        let front = steps.drop_last();
        lemma_switched_off_run(fresh, front);
        assert forall|i: int| 0 <= i < steps.len() implies #[trigger] steps[i] is Unsupported by {
            if i < front.len() {
                assert(front[i] == steps[i]);
            }
        }
    }
}

/// A caller that enters and fails, with no step of another caller in between,
/// leaves the state as it found it, whether it was turned away at the limit
/// or let down by the allocator: either way it takes back the one it added.
pub proof fn lemma_failed_call_leaves_no_trace(s: PoolState)
    requires
        s.enabled(Step::Enter),
    ensures
        admits(s.stack_limit as int, s.live_count) ==> s.step(Step::Enter).enabled(Step::Fail)
            && s.step(Step::Enter).step(Step::Fail) == s,
        !admits(s.stack_limit as int, s.live_count) ==> s.step(Step::Enter).enabled(Step::Refuse)
            && s.step(Step::Enter).step(Step::Refuse) == s,
{
}

/// A state that a run reaches is empty whenever no call is under way and
/// every stack that was handed out has been handed back.
pub proof fn lemma_empty_when_all_returned(s: PoolState, steps: Seq<Step>)
    requires
        s.reached_by(steps),
        s.at_rest(),
        s.held == 0,
    ensures
        s.is_empty(),
{
    lemma_reached_is_consistent(s, steps);
}

} // verus!
