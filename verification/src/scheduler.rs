//! The per-core scheduler state: task bitmaps, the running task and the
//! preemption counter.

use vstd::prelude::*;

use crate::config::MAX_TASKS;
use crate::helpers::spec_msb;

verus! {

/// A task identifier.  Priority is identity: the identifier of a task is
/// its fixed priority, 0 being the idle task.
pub type TaskId = u32;

/// A fixed-width set over task identifiers: bit `i` is set exactly when
/// task `i` is a member.
pub type BooleanVector = u32;

/// The state of one core's scheduler.
///
/// `curr_tid` is kept equal, after every scheduling decision, to the most
/// significant bit of `active_tasks & !blocked_tasks & released_tasks`, so
/// the highest-priority ready task runs; the idle task (bit 0) runs when
/// that set is empty.
#[derive(Clone, Copy, Debug)]
pub struct Scheduler {
    /// The task selected most recently by the scheduler.
    pub curr_tid: TaskId,
    /// Bit `i` set while task `i` is created and has not exited.
    pub active_tasks: BooleanVector,
    /// Tasks that have been released at least once.  Release is a sticky
    /// membership update: the bit is set by `release` and stays set.
    pub released_tasks: BooleanVector,
    /// Tasks currently suppressed by a resource lock.
    pub blocked_tasks: BooleanVector,
    /// True exactly when `preempt_disable_count` is zero.
    pub is_preemptive: bool,
    /// Depth of nested `disable_preemption` calls.
    pub preempt_disable_count: u32,
    /// Tasks migrated to this core by the cross-core protocol.
    pub migrated_tasks: BooleanVector,
    /// Identity of the task most recently migrated towards this core.
    pub migrated_tid: TaskId,
}

impl Scheduler {
    /// The set of tasks eligible to run.
    pub open spec fn spec_ready(self) -> BooleanVector {
        self.active_tasks & !self.blocked_tasks & self.released_tasks
    }

    /// Well-formedness: identifiers are in range and the preemption flag
    /// mirrors the nesting counter.
    pub open spec fn wf(self) -> bool {
        &&& self.curr_tid < MAX_TASKS
        &&& self.migrated_tid < MAX_TASKS
        &&& (self.is_preemptive <==> self.preempt_disable_count == 0)
    }

    /// The scheduler after one selection: the highest-priority ready task
    /// (or idle) becomes current.
    pub open spec fn spec_selected(self) -> Scheduler {
        Scheduler { curr_tid: spec_msb(self.spec_ready()), ..self }
    }

    /// The scheduler after a scheduling point: selection happens only while
    /// preemption is enabled.
    pub open spec fn spec_rescheduled(self) -> Scheduler {
        if self.is_preemptive {
            self.spec_selected()
        } else {
            self
        }
    }

    /// A fresh scheduler: no tasks, idle current, preemption enabled.
    pub fn new() -> (s: Scheduler)
        ensures
            s.wf(),
            s.curr_tid == 0,
            s.active_tasks == 0,
            s.released_tasks == 0,
            s.blocked_tasks == 0,
            s.is_preemptive,
            s.preempt_disable_count == 0,
            s.migrated_tasks == 0,
            s.migrated_tid == 0,
    {
        Scheduler {
            curr_tid: 0,
            active_tasks: 0,
            released_tasks: 0,
            blocked_tasks: 0,
            is_preemptive: true,
            preempt_disable_count: 0,
            migrated_tasks: 0,
            migrated_tid: 0,
        }
    }
}

/// Selection picks the highest-priority ready task: after a selection
/// that makes a task other than idle current, that task is in the ready
/// set and no higher-priority task is.
pub proof fn lemma_selection_picks_highest_ready(s: Scheduler)
    ensures
        s.spec_selected().curr_tid > 0 ==> s.spec_ready() & (1u32 << s.spec_selected().curr_tid)
            != 0,
        forall|j: u32|
            s.spec_selected().curr_tid < j <= 31 ==> #[trigger] (s.spec_ready() & (1u32 << j))
                == 0,
{
    crate::helpers::lemma_msb_highest(s.spec_ready());
}

/// The idle task runs whenever no other task is ready: selection on a
/// ready set holding at most the idle bit makes task 0 current.
pub proof fn lemma_idle_runs(s: Scheduler)
    requires
        s.spec_ready() & !1u32 == 0,
    ensures
        s.spec_selected().curr_tid == 0,
{
    crate::helpers::lemma_msb_idle(s.spec_ready());
}

} // verus!
