//! Edge-triggered binary semaphores for task synchronization.
//!
//! A semaphore is a pair of boolean vectors: the mutable `flags` record
//! which tasks have been notified and not yet consumed the notification,
//! and the constant `tasks` name who is released when the semaphore is
//! signalled.  Separating the two lets one signal wake a coordinator that
//! multicasts work to several workers.

use vstd::prelude::*;

use crate::errors::KernelError;
use crate::scheduler::{BooleanVector, Scheduler};
use crate::tasks::release;

verus! {

/// The flag vector after a signal with `notify_mask`.
pub open spec fn spec_signalled(flags: BooleanVector, notify_mask: BooleanVector) -> BooleanVector {
    flags | notify_mask
}

/// Whether a test by task `tid` observes its flag set.
pub open spec fn spec_flag_set(flags: BooleanVector, tid: u32) -> bool {
    flags & (1u32 << tid) != 0
}

/// The flag vector after task `tid` consumed its flag.
pub open spec fn spec_flag_cleared(flags: BooleanVector, tid: u32) -> BooleanVector {
    flags & !(1u32 << tid)
}

/// A binary semaphore bound to one core's scheduler.
pub struct Semaphore {
    /// The tasks notified by the semaphore and not yet reset.
    pub flags: BooleanVector,
    /// The tasks released whenever the semaphore is signalled.
    pub tasks: BooleanVector,
}

impl Semaphore {
    /// A new semaphore: no pending notification, releasing `tasks` on each
    /// signal.
    pub fn new(tasks: BooleanVector) -> (s: Semaphore)
        ensures
            s.flags == 0,
            s.tasks == tasks,
    {
        Semaphore { flags: 0, tasks }
    }

    /// Signals the semaphore: the tasks in `tasks_mask` can observe the
    /// event, the pre-declared release set becomes ready, and selection is
    /// rerun.
    pub fn signal_and_release(&mut self, sched: &mut Scheduler, tasks_mask: BooleanVector)
        requires
            old(sched).wf(),
        ensures
            final(sched).wf(),
            final(self).flags == spec_signalled(old(self).flags, tasks_mask),
            final(self).tasks == old(self).tasks,
            *final(sched) == (Scheduler {
                released_tasks: old(sched).released_tasks | old(self).tasks,
                ..*old(sched)
            }).spec_rescheduled(),
    {
        self.flags = self.flags | tasks_mask;
        release(sched, self.tasks);
    }

    /// Tests whether the running task was notified, consuming the
    /// notification: the answer is `true` exactly when the task's flag was
    /// set, and the flag is clear afterwards either way.
    pub fn test_and_reset(&mut self, sched: &Scheduler) -> (r: Result<bool, KernelError>)
        requires
            sched.wf(),
        ensures
            final(self).tasks == old(self).tasks,
            r == Ok::<bool, KernelError>(spec_flag_set(old(self).flags, sched.curr_tid)),
            final(self).flags == (if spec_flag_set(old(self).flags, sched.curr_tid) {
                spec_flag_cleared(old(self).flags, sched.curr_tid)
            } else {
                old(self).flags
            }),
    {
        let curr_tid_mask = 1u32 << sched.curr_tid;
        if self.flags & curr_tid_mask != 0 {
            self.flags = self.flags & !curr_tid_mask;
            Ok(true)
        } else {
            Ok(false)
        }
    }
}

/// One signal is consumed exactly once: after a signal whose notify mask
/// contains task `tid`, a test by `tid` observes the event, and a second
/// test — after the first consumed the flag — does not.
pub proof fn lemma_signal_then_test(flags: BooleanVector, notify_mask: BooleanVector, tid: u32)
    requires
        tid < 32,
        notify_mask & (1u32 << tid) != 0,
    ensures
        spec_flag_set(spec_signalled(flags, notify_mask), tid),
        !spec_flag_set(spec_flag_cleared(spec_signalled(flags, notify_mask), tid), tid),
{
    assert((flags | notify_mask) & (1u32 << tid) != 0) by (bit_vector)
        requires
            notify_mask & (1u32 << tid) != 0,
    ;
    assert(((flags | notify_mask) & !(1u32 << tid)) & (1u32 << tid) == 0) by (bit_vector);
}

/// A task outside the notify mask observes nothing from a signal it was
/// not named in, provided it had no pending notification of its own.
pub proof fn lemma_signal_skips_unnamed(flags: BooleanVector, notify_mask: BooleanVector, tid: u32)
    requires
        tid < 32,
        notify_mask & (1u32 << tid) == 0,
        flags & (1u32 << tid) == 0,
    ensures
        !spec_flag_set(spec_signalled(flags, notify_mask), tid),
{
    assert((flags | notify_mask) & (1u32 << tid) == 0) by (bit_vector)
        requires
            notify_mask & (1u32 << tid) == 0 && flags & (1u32 << tid) == 0,
    ;
}

} // verus!
