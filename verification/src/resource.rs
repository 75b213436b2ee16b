//! A safe container for a shared resource, guarded by the Immediate
//! Ceiling Priority Protocol (ICPP).
//!
//! A resource carries its payload by value, the boolean vector of tasks
//! that may acquire it, and its static priority ceiling — the highest
//! priority among those tasks.  Locking raises the system ceiling to the
//! resource's ceiling and suppresses the competing tasks; unlocking
//! restores both.  Because a lock is granted only above the current system
//! ceiling, lock requests never wait and can never deadlock.

use vstd::prelude::*;

use crate::config::MAX_RESOURCES;
use crate::errors::KernelError;
use crate::helpers::{get_msb, lemma_msb_bound, spec_msb, spec_pi_mask};
use crate::pi_stack::{spec_top_ceiling, PiStack};
use crate::scheduler::{BooleanVector, Scheduler, TaskId};
use crate::tasks::{block_tasks, reselect, unblock_tasks};

verus! {

/// A resource guarded by ICPP.  The ceiling and access mask are fixed at
/// construction; `blocked_mask` remembers which tasks the most recent lock
/// suppressed, so that unlock releases exactly those.
pub struct Resource<T> {
    /// Priority of the highest-priority task allowed to acquire the
    /// resource; the resource's static ceiling.
    pub ceiling: TaskId,
    /// The boolean vector of tasks with access; bit 0 (idle / privileged
    /// context) is always a member.
    pub tasks_mask: BooleanVector,
    /// The tasks blocked by the currently pending lock of this resource.
    pub blocked_mask: BooleanVector,
    /// The guarded payload.
    pub inner: T,
}

impl<T> Resource<T> {
    /// Well-formedness: the idle bit is in the access mask and the ceiling
    /// is the most significant bit of the mask.
    pub open spec fn wf(self) -> bool {
        &&& self.tasks_mask & 1u32 == 1u32
        &&& self.ceiling == spec_msb(self.tasks_mask)
        &&& self.ceiling <= 31
    }

    /// The set of tasks a lock taken now would suppress: the resource's
    /// users, except those already blocked and the task taking the lock.
    pub open spec fn spec_newly_blocked(self, sched: Scheduler) -> BooleanVector {
        self.tasks_mask & !sched.blocked_tasks & !(1u32 << sched.curr_tid)
    }

    /// Creates a resource.  The idle / privileged bit is forced into the
    /// access mask and the ceiling is computed from the mask.
    pub fn new(val: T, tasks_mask: BooleanVector) -> (r: Resource<T>)
        ensures
            r.wf(),
            r.tasks_mask == tasks_mask | 1u32,
            r.ceiling == spec_msb(tasks_mask | 1u32),
            r.blocked_mask == 0,
            r.inner == val,
    {
        let mask = tasks_mask | 1u32;
        proof {
            assert((tasks_mask | 1u32) & 1u32 == 1u32) by (bit_vector);
            lemma_msb_bound(mask);
        }
        Resource { ceiling: get_msb(mask), tasks_mask: mask, blocked_mask: 0, inner: val }
    }

    /// The boolean vector of every priority up to and including `ceiling`.
    pub fn get_pi_mask(ceiling: TaskId) -> (r: u32)
        ensures
            r == spec_pi_mask(ceiling),
    {
        if ceiling < 31 {
            proof {
                assert(1u32 << ((ceiling + 1) as u32) >= 1) by (bit_vector)
                    requires
                        ceiling < 31,
                ;
            }
            (1u32 << (ceiling + 1)) - 1
        } else {
            0xffff_ffff
        }
    }

    /// Locks the resource for the running task and suppresses the
    /// competing tasks.
    ///
    /// The lock is refused with `AccessDenied` when the running task is
    /// not in the access mask, or when the resource's ceiling does not
    /// exceed the system ceiling — under ICPP a task that could reach this
    /// call never observes the latter, so it marks a programming error.
    /// On success the system ceiling rises to the resource's ceiling and
    /// exactly the not-yet-blocked users other than the caller are
    /// blocked; nothing changes on failure.
    pub fn lock(&mut self, sched: &mut Scheduler, pi: &mut PiStack) -> (r: Result<
        (),
        KernelError,
    >)
        requires
            old(self).wf(),
            old(sched).wf(),
            old(pi).wf(),
        ensures
            final(self).wf(),
            final(sched).wf(),
            final(pi).wf(),
            final(self).ceiling == old(self).ceiling,
            final(self).tasks_mask == old(self).tasks_mask,
            final(self).inner == old(self).inner,
            old(self).tasks_mask & (1u32 << old(sched).curr_tid) == 0 ==> r == Err::<
                (),
                KernelError,
            >(KernelError::AccessDenied) && *final(self) == *old(self) && *final(sched) == *old(
                sched,
            ) && *final(pi) == *old(pi),
            old(self).tasks_mask & (1u32 << old(sched).curr_tid) != 0 && old(self).ceiling as i32
                <= old(pi).system_ceiling ==> r == Err::<(), KernelError>(
                KernelError::AccessDenied,
            ) && *final(self) == *old(self) && *final(sched) == *old(sched) && *final(pi) == *old(
                pi,
            ),
            old(self).tasks_mask & (1u32 << old(sched).curr_tid) != 0 && old(self).ceiling as i32
                > old(pi).system_ceiling && old(pi).stack@.len() >= MAX_RESOURCES ==> r == Err::<
                (),
                KernelError,
            >(KernelError::LimitExceeded) && *final(self) == *old(self) && *final(sched) == *old(
                sched,
            ) && *final(pi) == *old(pi),
            old(self).tasks_mask & (1u32 << old(sched).curr_tid) != 0 && old(self).ceiling as i32
                > old(pi).system_ceiling && old(pi).stack@.len() < MAX_RESOURCES ==> r == Ok::<
                (),
                KernelError,
            >(()) && final(pi).stack@ == old(pi).stack@.push(old(self).ceiling)
                && final(pi).system_ceiling == old(self).ceiling as i32
                && final(self).blocked_mask == old(self).spec_newly_blocked(*old(sched))
                && *final(sched) == (Scheduler {
                blocked_tasks: old(sched).blocked_tasks | old(self).spec_newly_blocked(
                    *old(sched),
                ),
                ..*old(sched)
            }),
    {
        let pid_mask = 1u32 << sched.curr_tid;
        if self.tasks_mask & pid_mask == 0 {
            return Err(KernelError::AccessDenied);
        }
        if self.ceiling as i32 > pi.system_ceiling {
            match pi.push_stack(self.ceiling) {
                Err(e) => Err(e),
                Ok(()) => {
                    let newly_blocked = self.tasks_mask & !sched.blocked_tasks & !pid_mask;
                    self.blocked_mask = newly_blocked;
                    block_tasks(sched, newly_blocked);
                    Ok(())
                },
            }
        } else {
            Err(KernelError::AccessDenied)
        }
    }

    /// Unlocks the resource and releases exactly the tasks the matching
    /// lock blocked, then reruns selection.  Nested locks release in LIFO
    /// order: when this resource's ceiling is not the top of the ceiling
    /// stack the call refuses with `NotLocked` and changes nothing.
    pub fn unlock(&self, sched: &mut Scheduler, pi: &mut PiStack) -> (r: Result<(), KernelError>)
        requires
            self.wf(),
            old(sched).wf(),
            old(pi).wf(),
        ensures
            final(sched).wf(),
            final(pi).wf(),
            self.ceiling as i32 != old(pi).system_ceiling ==> r == Err::<(), KernelError>(
                KernelError::NotLocked,
            ) && *final(sched) == *old(sched) && *final(pi) == *old(pi),
            self.ceiling as i32 == old(pi).system_ceiling ==> r == Ok::<(), KernelError>(())
                && final(pi).stack@ == old(pi).stack@.drop_last() && final(pi).system_ceiling
                == spec_top_ceiling(old(pi).stack@.drop_last()) && *final(sched) == (Scheduler {
                blocked_tasks: old(sched).blocked_tasks & !self.blocked_mask,
                ..*old(sched)
            }).spec_rescheduled(),
    {
        if self.ceiling as i32 == pi.system_ceiling {
            match pi.pop_stack() {
                Err(e) => Err(e),
                Ok(()) => {
                    unblock_tasks(sched, self.blocked_mask);
                    reselect(sched);
                    Ok(())
                },
            }
        } else {
            Err(KernelError::NotLocked)
        }
    }

    /// Runs `handler` on the payload with the resource held: lock, run,
    /// unlock.  On success the handler's result is returned and the
    /// scheduler and ceiling stack are exactly as a lock followed by its
    /// unlock leaves them — the ceiling stack as it was, the blocked set
    /// as it was, and selection rerun.  A refused lock is returned
    /// unchanged and nothing moves.
    pub fn acquire<R, F: Fn(&T) -> R>(
        &mut self,
        sched: &mut Scheduler,
        pi: &mut PiStack,
        handler: F,
    ) -> (r: Result<R, KernelError>)
        requires
            old(self).wf(),
            old(sched).wf(),
            old(pi).wf(),
            forall|t: &T| call_requires(handler, (t,)),
        ensures
            final(self).wf(),
            final(sched).wf(),
            final(pi).wf(),
            final(self).ceiling == old(self).ceiling,
            final(self).tasks_mask == old(self).tasks_mask,
            final(self).inner == old(self).inner,
            !(old(self).tasks_mask & (1u32 << old(sched).curr_tid) != 0 && old(
                self,
            ).ceiling as i32 > old(pi).system_ceiling) ==> r == Err::<R, KernelError>(
                KernelError::AccessDenied,
            ) && *final(self) == *old(self) && *final(sched) == *old(sched) && *final(pi) == *old(
                pi,
            ),
            old(self).tasks_mask & (1u32 << old(sched).curr_tid) != 0 && old(self).ceiling as i32
                > old(pi).system_ceiling && old(pi).stack@.len() >= MAX_RESOURCES ==> r == Err::<
                R,
                KernelError,
            >(KernelError::LimitExceeded) && *final(self) == *old(self) && *final(sched) == *old(
                sched,
            ) && *final(pi) == *old(pi),
            old(self).tasks_mask & (1u32 << old(sched).curr_tid) != 0 && old(self).ceiling as i32
                > old(pi).system_ceiling && old(pi).stack@.len() < MAX_RESOURCES ==> (r matches Ok(
                v,
            ) && call_ensures(handler, (&old(self).inner,), v)) && final(pi).stack@ == old(
                pi,
            ).stack@ && final(pi).system_ceiling == old(pi).system_ceiling
                && final(self).blocked_mask == old(self).spec_newly_blocked(*old(sched))
                && *final(sched) == (*old(sched)).spec_rescheduled(),
    {
        proof {
            let m: u32 = old(self).tasks_mask;
            let b: u32 = old(sched).blocked_tasks;
            let x: u32 = 1u32 << old(sched).curr_tid;
            assert((m & !b & !x) & b == 0) by (bit_vector);
            crate::helpers::lemma_block_restore(b, m & !b & !x);
        }
        match self.lock(sched, pi) {
            Err(e) => Err(e),
            Ok(()) => {
                let res = handler(&self.inner);
                match self.unlock(sched, pi) {
                    Err(e) => Err(e),
                    Ok(()) => {
                        proof {
                            assert(pi.stack@ =~= old(pi).stack@);
                        }
                        Ok(res)
                    },
                }
            },
        }
    }
}

/// The set of tasks a lock blocks equals the set its unlock unblocks:
/// blocking the newly-blocked set of a lock and unblocking that same set
/// leaves the scheduler's blocked set exactly as it was.
pub proof fn lemma_lock_unlock_blocked_roundtrip<T>(r: Resource<T>, sched: Scheduler)
    ensures
        (sched.blocked_tasks | r.spec_newly_blocked(sched)) & !r.spec_newly_blocked(sched)
            == sched.blocked_tasks,
{
    let m: u32 = r.tasks_mask;
    let b: u32 = sched.blocked_tasks;
    let x: u32 = 1u32 << sched.curr_tid;
    assert((m & !b & !x) & b == 0) by (bit_vector);
    crate::helpers::lemma_block_restore(b, m & !b & !x);
}

} // verus!
