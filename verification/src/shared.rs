//! Cross-core shared resources: local ICPP plus a cross-core lock flag
//! with a task-migration escape hatch.
//!
//! A [`SharedResource`] owns the payload, one access mask per core, the
//! cross-core lock flag and the identity of the task that holds it.  Each
//! core sees it through a [`Shared`] view: the local ICPP bookkeeping for
//! that core plus the peer core's access mask.  Taking the shared lock
//! means first taking the local ICPP lock, then claiming the flag; while
//! the flag is held by the peer, each spin iteration may discover — under
//! the cross-core scheduler lock — that the holder was preempted on the
//! peer core, and then migrates the holder's identity towards this core
//! so that it can finish and release.  The spin itself is the caller's
//! loop over [`SharedResource::try_claim`] and
//! [`Shared::migrate_if_preempted`].

use vstd::prelude::*;

use crate::config::{MAX_RESOURCES, MAX_TASKS};
use crate::errors::KernelError;
use crate::helpers::spec_msb;
use crate::pi_stack::{spec_top_ceiling, PiStack};
use crate::resource::Resource;
use crate::scheduler::{BooleanVector, Scheduler, TaskId};
use crate::spinlock::{spinlock, spinlock_try, spinunlock};
use crate::tasks::reselect;

verus! {

/// A resource shared between the two cores.
pub struct SharedResource<T> {
    /// The guarded payload.
    pub val: T,
    /// Which tasks on core 0 may acquire the resource.
    pub tasks_mask0: BooleanVector,
    /// Which tasks on core 1 may acquire the resource.
    pub tasks_mask1: BooleanVector,
    /// The cross-core lock flag: at most one core observes it held by
    /// itself.
    pub lock: bool,
    /// The task that claimed the lock most recently.
    pub curr_tid: TaskId,
}

impl<T> SharedResource<T> {
    /// Well-formedness: the recorded holder is a task identifier.
    pub open spec fn wf(self) -> bool {
        self.curr_tid < MAX_TASKS
    }

    /// A new shared resource, unlocked, with one access mask per core.
    pub fn new(val: T, tasks_mask0: BooleanVector, tasks_mask1: BooleanVector) -> (r:
        SharedResource<T>)
        ensures
            r.wf(),
            r.val == val,
            r.tasks_mask0 == tasks_mask0,
            r.tasks_mask1 == tasks_mask1,
            !r.lock,
            r.curr_tid == 0,
    {
        SharedResource { val, tasks_mask0, tasks_mask1, lock: false, curr_tid: 0 }
    }

    /// Core 0's view: local ICPP bookkeeping over core 0's mask, spinning
    /// against core 1's mask.
    pub fn core0(&self) -> (s: Shared)
        ensures
            s.resource.wf(),
            s.resource.tasks_mask == self.tasks_mask0 | 1u32,
            s.resource.ceiling == spec_msb(self.tasks_mask0 | 1u32),
            s.resource.blocked_mask == 0,
            s.other_tasks_mask == self.tasks_mask1,
    {
        Shared::new(Resource::new((), self.tasks_mask0), self.tasks_mask1)
    }

    /// Core 1's view: local ICPP bookkeeping over core 1's mask, spinning
    /// against core 0's mask.
    pub fn core1(&self) -> (s: Shared)
        ensures
            s.resource.wf(),
            s.resource.tasks_mask == self.tasks_mask1 | 1u32,
            s.resource.ceiling == spec_msb(self.tasks_mask1 | 1u32),
            s.resource.blocked_mask == 0,
            s.other_tasks_mask == self.tasks_mask0,
    {
        Shared::new(Resource::new((), self.tasks_mask1), self.tasks_mask0)
    }

    /// One attempt at the cross-core lock flag: a free flag is claimed
    /// and the claiming task recorded; a held flag is left alone.
    pub fn try_claim(&mut self, holder: TaskId) -> (r: bool)
        requires
            holder < MAX_TASKS,
        ensures
            final(self).wf() || !r,
            final(self).val == old(self).val,
            final(self).tasks_mask0 == old(self).tasks_mask0,
            final(self).tasks_mask1 == old(self).tasks_mask1,
            !old(self).lock ==> r && final(self).lock && final(self).curr_tid == holder,
            old(self).lock ==> !r && *final(self) == *old(self),
    {
        if !self.lock {
            self.lock = true;
            self.curr_tid = holder;
            true
        } else {
            false
        }
    }
}

/// One core's view of a [`SharedResource`]: the local ICPP bookkeeping
/// and the peer core's access mask.
pub struct Shared {
    /// The local ICPP lock state for this core.
    pub resource: Resource<()>,
    /// The peer core's access mask for the same resource, consulted while
    /// spinning to detect that the holder was preempted over there.
    pub other_tasks_mask: BooleanVector,
}

impl Shared {
    /// Binds a local ICPP resource to the peer core's access mask.
    pub fn new(resource: Resource<()>, other_tasks_mask: BooleanVector) -> (s: Shared)
        ensures
            s.resource == resource,
            s.other_tasks_mask == other_tasks_mask,
    {
        Shared { resource, other_tasks_mask }
    }

    /// One spin iteration while the cross-core lock is held by the peer.
    ///
    /// Under the cross-core scheduler lock, the peer core's running task
    /// is read; when it is outside the resource's peer mask, the recorded
    /// holder has been preempted over there, so the holder's identity is
    /// migrated: it joins the peer scheduler's migrated set and becomes
    /// this scheduler's migrated task.  Selection is rerun either way.
    /// When the scheduler lock is unavailable the iteration does nothing.
    /// The answer says whether a migration happened.
    pub fn migrate_if_preempted<T>(
        &self,
        sr: &SharedResource<T>,
        sched: &mut Scheduler,
        other_sched: &mut Scheduler,
        tm_lock: &mut bool,
    ) -> (r: bool)
        requires
            old(sched).wf(),
            old(other_sched).wf(),
            sr.wf(),
        ensures
            final(sched).wf(),
            final(other_sched).wf(),
            *old(tm_lock) ==> !r && *final(tm_lock) && *final(sched) == *old(sched)
                && *final(other_sched) == *old(other_sched),
            !*old(tm_lock) ==> !*final(tm_lock),
            !*old(tm_lock) && (1u32 << old(other_sched).curr_tid) & self.other_tasks_mask == 0
                ==> r && *final(other_sched) == (Scheduler {
                migrated_tasks: old(other_sched).migrated_tasks | (1u32 << sr.curr_tid),
                ..*old(other_sched)
            }) && *final(sched) == (Scheduler {
                migrated_tid: sr.curr_tid,
                ..*old(sched)
            }).spec_rescheduled(),
            !*old(tm_lock) && (1u32 << old(other_sched).curr_tid) & self.other_tasks_mask != 0
                ==> !r && *final(other_sched) == *old(other_sched) && *final(sched) == old(
                sched,
            ).spec_rescheduled(),
    {
        match spinlock_try(tm_lock) {
            Ok(_) => {
                let oc_curr_tid = other_sched.curr_tid;
                let mut migrated = false;
                if (1u32 << oc_curr_tid) & self.other_tasks_mask == 0 {
                    let migrated_tid = sr.curr_tid;
                    other_sched.migrated_tasks = other_sched.migrated_tasks | (1u32
                        << migrated_tid);
                    sched.migrated_tid = migrated_tid;
                    migrated = true;
                }
                spinunlock(tm_lock);
                reselect(sched);
                migrated
            },
            Err(_) => false,
        }
    }

    /// Takes the shared lock: the local ICPP lock first, then the
    /// cross-core flag, recording the claiming task under the cross-core
    /// scheduler lock.  A refused local lock is returned unchanged.  The
    /// flag is free by precondition — a flag held by the peer would be
    /// spun on, one [`Shared::migrate_if_preempted`] per iteration, until
    /// the peer releases.
    pub fn lock<T>(
        &mut self,
        sr: &mut SharedResource<T>,
        sched: &mut Scheduler,
        pi: &mut PiStack,
        tm_lock: &mut bool,
    ) -> (r: Result<(), KernelError>)
        requires
            old(self).resource.wf(),
            old(sched).wf(),
            old(pi).wf(),
            old(sr).wf(),
            !old(sr).lock,
            !*old(tm_lock),
        ensures
            final(self).resource.wf(),
            final(sched).wf(),
            final(pi).wf(),
            final(sr).wf(),
            final(self).other_tasks_mask == old(self).other_tasks_mask,
            final(self).resource.ceiling == old(self).resource.ceiling,
            final(self).resource.tasks_mask == old(self).resource.tasks_mask,
            final(sr).val == old(sr).val,
            final(sr).tasks_mask0 == old(sr).tasks_mask0,
            final(sr).tasks_mask1 == old(sr).tasks_mask1,
            !(old(self).resource.tasks_mask & (1u32 << old(sched).curr_tid) != 0 && old(
                self,
            ).resource.ceiling as i32 > old(pi).system_ceiling) ==> r == Err::<(), KernelError>(
                KernelError::AccessDenied,
            ) && *final(self) == *old(self) && *final(sched) == *old(sched) && *final(pi) == *old(
                pi,
            ) && *final(sr) == *old(sr) && !*final(tm_lock),
            old(self).resource.tasks_mask & (1u32 << old(sched).curr_tid) != 0 && old(
                self,
            ).resource.ceiling as i32 > old(pi).system_ceiling && old(pi).stack@.len()
                >= MAX_RESOURCES ==> r == Err::<(), KernelError>(KernelError::LimitExceeded)
                && *final(self) == *old(self) && *final(sched) == *old(sched) && *final(pi)
                == *old(pi) && *final(sr) == *old(sr) && !*final(tm_lock),
            old(self).resource.tasks_mask & (1u32 << old(sched).curr_tid) != 0 && old(
                self,
            ).resource.ceiling as i32 > old(pi).system_ceiling && old(pi).stack@.len()
                < MAX_RESOURCES ==> r == Ok::<(), KernelError>(()) && final(pi).stack@ == old(
                pi,
            ).stack@.push(old(self).resource.ceiling) && final(pi).system_ceiling == old(
                self,
            ).resource.ceiling as i32 && final(self).resource.blocked_mask == old(
                self,
            ).resource.spec_newly_blocked(*old(sched)) && *final(sched) == (Scheduler {
                blocked_tasks: old(sched).blocked_tasks | old(self).resource.spec_newly_blocked(
                    *old(sched),
                ),
                ..*old(sched)
            }) && final(sr).lock && final(sr).curr_tid == old(sched).curr_tid && !*final(tm_lock),
    {
        match self.resource.lock(sched, pi) {
            Err(e) => Err(e),
            Ok(()) => {
                spinlock(tm_lock);
                let claimed = sr.try_claim(sched.curr_tid);
                spinunlock(tm_lock);
                proof {
                    assert(claimed);
                }
                Ok(())
            },
        }
    }

    /// Releases the shared lock: the cross-core flag is cleared, then the
    /// local ICPP lock is released as by [`Resource::unlock`] — when this
    /// resource's ceiling tops the ceiling stack, the previous ceiling is
    /// restored, the tasks the lock blocked are unblocked and selection
    /// is rerun.
    pub fn unlock<T>(
        &self,
        sr: &mut SharedResource<T>,
        sched: &mut Scheduler,
        pi: &mut PiStack,
    ) -> (r: Result<(), KernelError>)
        requires
            self.resource.wf(),
            old(sched).wf(),
            old(pi).wf(),
            old(sr).wf(),
        ensures
            final(sched).wf(),
            final(pi).wf(),
            final(sr).wf(),
            r == Ok::<(), KernelError>(()),
            !final(sr).lock,
            final(sr).val == old(sr).val,
            final(sr).tasks_mask0 == old(sr).tasks_mask0,
            final(sr).tasks_mask1 == old(sr).tasks_mask1,
            final(sr).curr_tid == old(sr).curr_tid,
            self.resource.ceiling as i32 != old(pi).system_ceiling ==> *final(sched) == *old(
                sched,
            ) && *final(pi) == *old(pi),
            self.resource.ceiling as i32 == old(pi).system_ceiling ==> final(pi).stack@ == old(
                pi,
            ).stack@.drop_last() && final(pi).system_ceiling == spec_top_ceiling(
                old(pi).stack@.drop_last(),
            ) && *final(sched) == (Scheduler {
                blocked_tasks: old(sched).blocked_tasks & !self.resource.blocked_mask,
                ..*old(sched)
            }).spec_rescheduled(),
    {
        sr.lock = false;
        match self.resource.unlock(sched, pi) {
            Ok(()) => Ok(()),
            Err(_) => Ok(()),
        }
    }

    /// Runs `handler` on the payload with the shared lock held: local
    /// ICPP lock, cross-core claim, run, release.  On success the ceiling
    /// stack and the blocked set are exactly as a lock followed by its
    /// unlock leaves them, the cross-core flag is free again, and the
    /// handler's result is returned; a refused local lock is returned
    /// unchanged and nothing moves.
    pub fn acquire<T, R, F: Fn(&T) -> R>(
        &mut self,
        sr: &mut SharedResource<T>,
        sched: &mut Scheduler,
        pi: &mut PiStack,
        tm_lock: &mut bool,
        handler: F,
    ) -> (r: Result<R, KernelError>)
        requires
            old(self).resource.wf(),
            old(sched).wf(),
            old(pi).wf(),
            old(sr).wf(),
            !old(sr).lock,
            !*old(tm_lock),
            forall|t: &T| call_requires(handler, (t,)),
        ensures
            final(self).resource.wf(),
            final(sched).wf(),
            final(pi).wf(),
            final(sr).wf(),
            final(self).other_tasks_mask == old(self).other_tasks_mask,
            final(self).resource.ceiling == old(self).resource.ceiling,
            final(self).resource.tasks_mask == old(self).resource.tasks_mask,
            final(sr).val == old(sr).val,
            final(sr).tasks_mask0 == old(sr).tasks_mask0,
            final(sr).tasks_mask1 == old(sr).tasks_mask1,
            !*final(tm_lock),
            !(old(self).resource.tasks_mask & (1u32 << old(sched).curr_tid) != 0 && old(
                self,
            ).resource.ceiling as i32 > old(pi).system_ceiling) ==> r == Err::<R, KernelError>(
                KernelError::AccessDenied,
            ) && *final(self) == *old(self) && *final(sched) == *old(sched) && *final(pi) == *old(
                pi,
            ) && *final(sr) == *old(sr),
            old(self).resource.tasks_mask & (1u32 << old(sched).curr_tid) != 0 && old(
                self,
            ).resource.ceiling as i32 > old(pi).system_ceiling && old(pi).stack@.len()
                >= MAX_RESOURCES ==> r == Err::<R, KernelError>(KernelError::LimitExceeded)
                && *final(self) == *old(self) && *final(sched) == *old(sched) && *final(pi)
                == *old(pi) && *final(sr) == *old(sr),
            old(self).resource.tasks_mask & (1u32 << old(sched).curr_tid) != 0 && old(
                self,
            ).resource.ceiling as i32 > old(pi).system_ceiling && old(pi).stack@.len()
                < MAX_RESOURCES ==> (r matches Ok(v) && call_ensures(handler, (&old(sr).val,), v))
                && final(pi).stack@ == old(pi).stack@ && final(pi).system_ceiling == old(
                pi,
            ).system_ceiling && *final(sched) == (*old(sched)).spec_rescheduled()
                && !final(sr).lock && final(sr).curr_tid == old(sched).curr_tid,
    {
        proof {
            let m: u32 = old(self).resource.tasks_mask;
            let b: u32 = old(sched).blocked_tasks;
            let x: u32 = 1u32 << old(sched).curr_tid;
            assert((m & !b & !x) & b == 0) by (bit_vector);
            crate::helpers::lemma_block_restore(b, m & !b & !x);
        }
        match self.lock(sr, sched, pi, tm_lock) {
            Err(e) => Err(e),
            Ok(()) => {
                let res = handler(&sr.val);
                match self.unlock(sr, sched, pi) {
                    Ok(()) => {
                        proof {
                            assert(pi.stack@ =~= old(pi).stack@);
                        }
                        Ok(res)
                    },
                    Err(e) => Err(e),
                }
            },
        }
    }
}

} // verus!
