//! Kernel task-management routines.
//!
//! Each routine is one serialized step on a [`Scheduler`]: the caller runs
//! it with interrupts disabled (the critical-section primitive of the
//! architecture layer) and, where a routine answers with a
//! [`SwitchRequest`], performs the requested context-switch mechanism.

use vstd::prelude::*;

use crate::config::MAX_TASKS;
use crate::errors::KernelError;
use crate::helpers::{get_msb, lemma_msb_bound, spec_msb};
use crate::scheduler::{BooleanVector, Scheduler, TaskId};

verus! {

/// The architectural action a scheduling point asks for: nothing, a
/// pendable software interrupt (from privileged context), or a supervisor
/// trap that re-enters the scheduler privileged (from unprivileged
/// context).
#[derive(Clone, Copy, Debug, PartialEq, Eq, Structural)]
pub enum SwitchRequest {
    NoSwitch,
    PendSv,
    SvcCall,
}

/// The context-switch request a scheduling point produces: a switch is
/// requested only while preemption is enabled and only when selection
/// changes the running task.
pub open spec fn spec_switch_request(s: Scheduler, privileged: bool) -> SwitchRequest {
    if s.is_preemptive && spec_msb(s.spec_ready()) != s.curr_tid {
        if privileged {
            SwitchRequest::PendSv
        } else {
            SwitchRequest::SvcCall
        }
    } else {
        SwitchRequest::NoSwitch
    }
}

/// One selection step: while preemption is enabled, make the
/// highest-priority ready task (or idle) current.
pub(crate) fn reselect(sched: &mut Scheduler)
    requires
        old(sched).wf(),
    ensures
        final(sched).wf(),
        *final(sched) == old(sched).spec_rescheduled(),
{
    if sched.is_preemptive {
        let ready = sched.active_tasks & !sched.blocked_tasks & sched.released_tasks;
        proof {
            lemma_msb_bound(ready);
        }
        sched.curr_tid = get_msb(ready);
    }
}

/// Initializes the scheduler: creates the idle task (priority 0) and sets
/// the initial preemption policy.  Must run once before the kernel starts.
pub fn init(sched: &mut Scheduler, initial_preemptive: bool) -> (r: Result<(), KernelError>)
    requires
        old(sched).wf(),
    ensures
        final(sched).wf(),
        r == Ok::<(), KernelError>(()),
        final(sched).active_tasks == old(sched).active_tasks | 1u32,
        final(sched).is_preemptive == initial_preemptive,
        final(sched).preempt_disable_count == (if initial_preemptive { 0u32 } else { 1u32 }),
        final(sched).curr_tid == old(sched).curr_tid,
        final(sched).released_tasks == old(sched).released_tasks,
        final(sched).blocked_tasks == old(sched).blocked_tasks,
        final(sched).migrated_tasks == old(sched).migrated_tasks,
        final(sched).migrated_tid == old(sched).migrated_tid,
{
    sched.active_tasks = sched.active_tasks | 1u32;
    sched.is_preemptive = initial_preemptive;
    sched.preempt_disable_count = if initial_preemptive {
        0
    } else {
        1
    };
    Ok(())
}

/// Creates a task at the given priority.  Priority 0 is reserved for idle
/// and priorities must lie below `MAX_TASKS`; a priority already in use is
/// refused; only privileged context may create tasks.  The architecture
/// layer prepares the task's initial stack frame after this bookkeeping
/// succeeds.
pub fn create_task(sched: &mut Scheduler, priority: TaskId, privileged: bool) -> (r: Result<
    (),
    KernelError,
>)
    requires
        old(sched).wf(),
    ensures
        final(sched).wf(),
        !privileged ==> r == Err::<(), KernelError>(KernelError::AccessDenied) && *final(sched)
            == *old(sched),
        privileged && (priority == 0 || priority >= MAX_TASKS) ==> r == Err::<(), KernelError>(
            KernelError::InvalidTaskPriority,
        ) && *final(sched) == *old(sched),
        privileged && 0 < priority < MAX_TASKS && old(sched).active_tasks & (1u32 << priority)
            != 0 ==> r == Err::<(), KernelError>(KernelError::TaskAlreadyExists) && *final(sched)
            == *old(sched),
        privileged && 0 < priority < MAX_TASKS && old(sched).active_tasks & (1u32 << priority)
            == 0 ==> r == Ok::<(), KernelError>(()) && *final(sched) == (Scheduler {
            active_tasks: old(sched).active_tasks | (1u32 << priority),
            ..*old(sched)
        }),
{
    if !privileged {
        return Err(KernelError::AccessDenied);
    }
    if priority == 0 || priority >= MAX_TASKS {
        return Err(KernelError::InvalidTaskPriority);
    }
    if sched.active_tasks & (1u32 << priority) != 0 {
        return Err(KernelError::TaskAlreadyExists);
    }
    sched.active_tasks = sched.active_tasks | (1u32 << priority);
    Ok(())
}

/// A scheduling point.  While preemption is enabled the highest-priority
/// ready task is selected; when that changes the running task, the answer
/// names the context-switch mechanism for the caller's privilege level.
pub fn schedule(sched: &mut Scheduler, privileged: bool) -> (r: SwitchRequest)
    requires
        old(sched).wf(),
    ensures
        final(sched).wf(),
        *final(sched) == old(sched).spec_rescheduled(),
        r == spec_switch_request(*old(sched), privileged),
{
    let before = sched.curr_tid;
    reselect(sched);
    if sched.is_preemptive && sched.curr_tid != before {
        if privileged {
            SwitchRequest::PendSv
        } else {
            SwitchRequest::SvcCall
        }
    } else {
        SwitchRequest::NoSwitch
    }
}

/// The identifier of the task the scheduler ran most recently.
pub fn get_curr_tid(sched: &Scheduler) -> (r: TaskId)
    ensures
        r == sched.curr_tid,
{
    sched.curr_tid
}

/// Suppresses every task in `tasks_mask`.
pub fn block_tasks(sched: &mut Scheduler, tasks_mask: BooleanVector)
    requires
        old(sched).wf(),
    ensures
        final(sched).wf(),
        *final(sched) == (Scheduler {
            blocked_tasks: old(sched).blocked_tasks | tasks_mask,
            ..*old(sched)
        }),
{
    sched.blocked_tasks = sched.blocked_tasks | tasks_mask;
}

/// Removes every task in `tasks_mask` from the blocked set.
pub fn unblock_tasks(sched: &mut Scheduler, tasks_mask: BooleanVector)
    requires
        old(sched).wf(),
    ensures
        final(sched).wf(),
        *final(sched) == (Scheduler {
            blocked_tasks: old(sched).blocked_tasks & !tasks_mask,
            ..*old(sched)
        }),
{
    sched.blocked_tasks = sched.blocked_tasks & !tasks_mask;
}

/// Marks the running task as finished and selects the next one.
pub fn task_exit(sched: &mut Scheduler)
    requires
        old(sched).wf(),
    ensures
        final(sched).wf(),
        *final(sched) == (Scheduler {
            active_tasks: old(sched).active_tasks & !(1u32 << old(sched).curr_tid),
            ..*old(sched)
        }).spec_rescheduled(),
{
    sched.active_tasks = sched.active_tasks & !(1u32 << sched.curr_tid);
    reselect(sched);
}

/// Releases every task in `tasks_mask` — they become eligible to run — and
/// reruns selection.
pub fn release(sched: &mut Scheduler, tasks_mask: BooleanVector)
    requires
        old(sched).wf(),
    ensures
        final(sched).wf(),
        *final(sched) == (Scheduler {
            released_tasks: old(sched).released_tasks | tasks_mask,
            ..*old(sched)
        }).spec_rescheduled(),
{
    sched.released_tasks = sched.released_tasks | tasks_mask;
    reselect(sched);
}

/// Leaves one level of preemption disabling; preemptive scheduling resumes
/// only when the outermost level is left.
pub fn enable_preemption(sched: &mut Scheduler)
    requires
        old(sched).wf(),
        old(sched).preempt_disable_count > 0,
    ensures
        final(sched).wf(),
        *final(sched) == (Scheduler {
            preempt_disable_count: (old(sched).preempt_disable_count - 1) as u32,
            is_preemptive: old(sched).preempt_disable_count == 1,
            ..*old(sched)
        }),
{
    sched.preempt_disable_count = sched.preempt_disable_count - 1;
    if sched.preempt_disable_count == 0 {
        sched.is_preemptive = true;
    }
}

/// Enters one more level of preemption disabling.
pub fn disable_preemption(sched: &mut Scheduler)
    requires
        old(sched).wf(),
        old(sched).preempt_disable_count < u32::MAX,
    ensures
        final(sched).wf(),
        *final(sched) == (Scheduler {
            preempt_disable_count: (old(sched).preempt_disable_count + 1) as u32,
            is_preemptive: false,
            ..*old(sched)
        }),
{
    sched.preempt_disable_count = sched.preempt_disable_count + 1;
    sched.is_preemptive = false;
}

} // verus!
