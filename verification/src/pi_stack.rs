//! The priority-ceiling stack: a bounded LIFO of the ceilings of the
//! resources currently locked on one core, together with the system
//! ceiling scalar.

use vstd::prelude::*;

use crate::config::MAX_RESOURCES;
use crate::errors::KernelError;
use crate::scheduler::TaskId;

verus! {

/// The system ceiling described by a stack of locked ceilings: its top, or
/// the sentinel -1 when nothing is locked.
pub open spec fn spec_top_ceiling(stack: Seq<u32>) -> i32 {
    if stack.len() > 0 {
        stack.last() as i32
    } else {
        -1i32
    }
}

/// The stack of ceilings of the currently locked resources, innermost lock
/// on top.  Ceilings strictly increase upwards — a lock is granted only
/// when its ceiling exceeds the system ceiling — so the top is also the
/// maximum.
pub struct PiStack {
    /// Ceilings of the locked resources, in lock order.
    pub stack: Vec<u32>,
    /// Maximum ceiling over all currently locked resources, or -1.
    pub system_ceiling: i32,
}

impl PiStack {
    /// Well-formedness: bounded depth, in-range strictly increasing
    /// ceilings, and a system ceiling equal to the top of the stack.
    pub open spec fn wf(self) -> bool {
        &&& self.stack@.len() <= MAX_RESOURCES
        &&& (forall|i: int, j: int|
            0 <= i < j < self.stack@.len() ==> self.stack@[i] < self.stack@[j])
        &&& (forall|i: int| 0 <= i < self.stack@.len() ==> self.stack@[i] <= 31)
        &&& self.system_ceiling == spec_top_ceiling(self.stack@)
    }

    /// An empty stack: nothing locked, system ceiling at the sentinel.
    pub fn new() -> (s: PiStack)
        ensures
            s.wf(),
            s.stack@.len() == 0,
            s.system_ceiling == -1,
    {
        PiStack { stack: Vec::new(), system_ceiling: -1 }
    }

    /// Records one more locked ceiling and raises the system ceiling to it.
    /// The caller locks only above the current system ceiling, which keeps
    /// the stack strictly increasing.
    pub fn push_stack(&mut self, ceiling: TaskId) -> (r: Result<(), KernelError>)
        requires
            old(self).wf(),
            ceiling <= 31,
            ceiling as i32 > old(self).system_ceiling,
        ensures
            final(self).wf(),
            old(self).stack@.len() >= MAX_RESOURCES ==> r == Err::<(), KernelError>(
                KernelError::LimitExceeded,
            ) && *final(self) == *old(self),
            old(self).stack@.len() < MAX_RESOURCES ==> r == Ok::<(), KernelError>(())
                && final(self).stack@ == old(self).stack@.push(ceiling)
                && final(self).system_ceiling == ceiling as i32,
    {
        if self.stack.len() >= MAX_RESOURCES {
            return Err(KernelError::LimitExceeded);
        }
        self.stack.push(ceiling);
        self.system_ceiling = ceiling as i32;
        Ok(())
    }

    /// Removes the innermost locked ceiling and restores the system ceiling
    /// to the one below it, or to the sentinel when the stack empties.
    pub fn pop_stack(&mut self) -> (r: Result<(), KernelError>)
        requires
            old(self).wf(),
        ensures
            final(self).wf(),
            old(self).stack@.len() == 0 ==> r == Err::<(), KernelError>(KernelError::Underflow)
                && *final(self) == *old(self),
            old(self).stack@.len() > 0 ==> r == Ok::<(), KernelError>(()) && final(self).stack@
                == old(self).stack@.drop_last() && final(self).system_ceiling == spec_top_ceiling(
                old(self).stack@.drop_last(),
            ),
    {
        if self.stack.len() == 0 {
            return Err(KernelError::Underflow);
        }
        self.stack.pop();
        self.system_ceiling = if self.stack.len() > 0 {
            self.stack[self.stack.len() - 1] as i32
        } else {
            -1
        };
        Ok(())
    }
}

/// The system ceiling dominates the ceiling of every locked resource.
pub proof fn lemma_system_ceiling_dominates(p: PiStack)
    requires
        p.wf(),
    ensures
        forall|i: int| 0 <= i < p.stack@.len() ==> p.stack@[i] as i32 <= p.system_ceiling,
{
    assert forall|i: int| 0 <= i < p.stack@.len() implies p.stack@[i] as i32
        <= p.system_ceiling by {
        if i < p.stack@.len() - 1 {
            assert(p.stack@[i] < p.stack@[p.stack@.len() - 1]);
        }
    }
}

/// Locking and then unlocking one resource is a no-op on the stack and on
/// the system ceiling: the push of a ceiling followed by a pop restores
/// both exactly.
pub proof fn lemma_push_pop_roundtrip(stack: Seq<u32>, ceiling: u32)
    ensures
        stack.push(ceiling).drop_last() == stack,
        spec_top_ceiling(stack.push(ceiling).drop_last()) == spec_top_ceiling(stack),
{
    assert(stack.push(ceiling).drop_last() =~= stack);
}

} // verus!
