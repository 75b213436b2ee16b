//! The resource registry: control blocks indexed by small resource
//! identifiers, with an inline priority-ceiling stack.
//!
//! Unlike [`crate::resource::Resource`], which carries its ceiling
//! bookkeeping next to the payload, the manager keeps one control block
//! per created resource, indexed by identifier.  Locking follows the same
//! protocol: a granted lock suppresses the resource's not-yet-blocked
//! users other than the caller, remembers that set in the control block,
//! and the matching unlock releases exactly it.  The managed [`Resource`]
//! handle pairs a payload with its registry identifier.

use vstd::prelude::*;

use crate::config::MAX_RESOURCES;
use crate::errors::KernelError;
use crate::helpers::{get_msb, lemma_msb_bound, spec_msb};
use crate::scheduler::Scheduler;
use crate::tasks::{block_tasks, reselect, unblock_tasks};

verus! {

/// Identifier of a created resource: its index in the registry.
pub type ResourceId = usize;

/// Access mask, static ceiling and lock bookkeeping of one resource.
#[derive(Clone, Copy, Debug)]
pub struct ResourceControlBlock {
    /// Priority ceiling: the most significant bit of `tasks_mask`.
    pub rt_ceiling: u32,
    /// Which tasks may acquire the resource.
    pub tasks_mask: u32,
    /// The tasks blocked by this resource's outstanding lock, remembered
    /// so that the matching unlock releases exactly those.
    pub blocked_mask: u32,
}

impl ResourceControlBlock {
    /// An empty control block, ceiling at the idle level.
    pub fn new() -> (r: ResourceControlBlock)
        ensures
            r.rt_ceiling == 0,
            r.tasks_mask == 0,
            r.blocked_mask == 0,
    {
        ResourceControlBlock { rt_ceiling: 0, tasks_mask: 0, blocked_mask: 0 }
    }

    /// Binds the block to an access mask; the ceiling is the mask's most
    /// significant bit.
    pub fn set(&mut self, tasks_mask: u32)
        ensures
            final(self).tasks_mask == tasks_mask,
            final(self).rt_ceiling == spec_msb(tasks_mask),
            final(self).blocked_mask == old(self).blocked_mask,
    {
        self.tasks_mask = tasks_mask;
        self.rt_ceiling = get_msb(tasks_mask);
    }

    /// The set of tasks a lock of this resource taken now would suppress:
    /// its users, except those already blocked and the task taking the
    /// lock.
    pub open spec fn spec_newly_blocked(self, sched: Scheduler) -> u32 {
        self.tasks_mask & !sched.blocked_tasks & !(1u32 << sched.curr_tid)
    }
}

/// The per-core resource registry and its ceiling stack.
///
/// The stack holds the previous system ceilings, one per outstanding
/// lock, strictly increasing upwards; the current system ceiling stands
/// beside it.  Because every lock strictly raises the system ceiling, the
/// stack can never grow past the number of priority levels, so a lock
/// never overflows it.
pub struct ResourceManager {
    /// One control block per created resource.
    pub resources_block: Vec<ResourceControlBlock>,
    /// Previous system ceilings of the locks currently outstanding.
    pub pi_stack: Vec<u32>,
    /// Maximum ceiling over all currently locked resources; 0 when none.
    pub system_ceiling: u32,
}

impl ResourceManager {
    /// Well-formedness: bounded registry and stack, saved ceilings
    /// strictly increasing below the current system ceiling, and a stack
    /// that starts (when non-empty) at the idle level it first saved.
    pub open spec fn wf(self) -> bool {
        &&& self.resources_block@.len() <= MAX_RESOURCES
        &&& (forall|k: int|
            0 <= k < self.resources_block@.len() ==> self.resources_block@[k].rt_ceiling <= 31)
        &&& self.pi_stack@.len() <= MAX_RESOURCES
        &&& (forall|i: int, j: int|
            0 <= i < j < self.pi_stack@.len() ==> self.pi_stack@[i] < self.pi_stack@[j])
        &&& (forall|i: int|
            0 <= i < self.pi_stack@.len() ==> self.pi_stack@[i] < self.system_ceiling)
        &&& self.system_ceiling <= 31
        &&& (self.pi_stack@.len() == 0 ==> self.system_ceiling == 0)
        &&& (self.pi_stack@.len() > 0 ==> self.pi_stack@[0] == 0)
    }

    /// An empty registry: no resources, nothing locked.
    pub fn new() -> (r: ResourceManager)
        ensures
            r.wf(),
            r.resources_block@.len() == 0,
            r.pi_stack@.len() == 0,
            r.system_ceiling == 0,
    {
        ResourceManager { resources_block: Vec::new(), pi_stack: Vec::new(), system_ceiling: 0 }
    }

    /// Registers one more resource with the given access mask, answering
    /// its identifier; refuses with `LimitExceeded` once `MAX_RESOURCES`
    /// resources exist.
    pub fn create(&mut self, tasks_mask: u32) -> (r: Result<ResourceId, KernelError>)
        requires
            old(self).wf(),
        ensures
            final(self).wf(),
            old(self).resources_block@.len() >= MAX_RESOURCES ==> r == Err::<
                ResourceId,
                KernelError,
            >(KernelError::LimitExceeded) && *final(self) == *old(self),
            old(self).resources_block@.len() < MAX_RESOURCES ==> r == Ok::<
                ResourceId,
                KernelError,
            >(old(self).resources_block@.len() as ResourceId) && final(self).resources_block@
                == old(self).resources_block@.push(
                ResourceControlBlock {
                    rt_ceiling: spec_msb(tasks_mask),
                    tasks_mask,
                    blocked_mask: 0,
                },
            ) && final(self).pi_stack@ == old(self).pi_stack@ && final(self).system_ceiling == old(
                self,
            ).system_ceiling,
    {
        let id = self.resources_block.len();
        if id >= MAX_RESOURCES {
            return Err(KernelError::LimitExceeded);
        }
        let mut block = ResourceControlBlock::new();
        block.set(tasks_mask);
        proof {
            lemma_msb_bound(tasks_mask);
        }
        self.resources_block.push(block);
        Ok(id)
    }

    /// Locks resource `id` for the running task: on a grant, the previous
    /// system ceiling is saved, the system ceiling rises to the
    /// resource's ceiling, and exactly the resource's not-yet-blocked
    /// users other than the caller are blocked; that set is remembered in
    /// the control block so the matching unlock releases it.  The lock is
    /// refused — answering `false`, with nothing changed — when the task
    /// is not in the resource's access mask or the ceiling does not
    /// exceed the current system ceiling.  An identifier no resource was
    /// created under is refused the same way.
    pub fn lock(&mut self, sched: &mut Scheduler, id: ResourceId) -> (r: bool)
        requires
            old(self).wf(),
            old(sched).wf(),
        ensures
            final(self).wf(),
            final(sched).wf(),
            final(self).resources_block@.len() == old(self).resources_block@.len(),
            id >= old(self).resources_block@.len() ==> !r && *final(self) == *old(self)
                && *final(sched) == *old(sched),
            id < old(self).resources_block@.len() && old(self).resources_block@[
                id as int
            ].tasks_mask & (1u32 << old(sched).curr_tid) == 0
                ==> !r && *final(self) == *old(self) && *final(sched) == *old(sched),
            id < old(self).resources_block@.len() && old(self).resources_block@[
                id as int
            ].tasks_mask & (1u32 << old(sched).curr_tid) != 0 && old(self).resources_block@[
                id as int
            ].rt_ceiling <= old(self).system_ceiling ==> !r && *final(self) == *old(self)
                && *final(sched) == *old(sched),
            id < old(self).resources_block@.len() && old(self).resources_block@[
                id as int
            ].tasks_mask & (1u32 << old(sched).curr_tid) != 0 && old(self).resources_block@[
                id as int
            ].rt_ceiling > old(self).system_ceiling ==> r && final(self).pi_stack@ == old(
                self,
            ).pi_stack@.push(
                old(self).system_ceiling,
            ) && final(self).system_ceiling == old(self).resources_block@[id as int].rt_ceiling
                && final(self).resources_block@ == old(self).resources_block@.update(
                id as int,
                (ResourceControlBlock {
                    blocked_mask: old(self).resources_block@[id as int].spec_newly_blocked(
                        *old(sched),
                    ),
                    ..old(self).resources_block@[id as int]
                }),
            ) && *final(sched) == (Scheduler {
                blocked_tasks: old(sched).blocked_tasks | old(self).resources_block@[
                    id as int
                ].spec_newly_blocked(*old(sched)),
                ..*old(sched)
            }),
    {
        if id >= self.resources_block.len() {
            return false;
        }
        let resource = self.resources_block[id];
        let curr_tid = sched.curr_tid;
        let rt_ceiling = resource.rt_ceiling;
        let pid_mask = 1u32 << curr_tid;

        if resource.tasks_mask & pid_mask == 0 {
            return false;
        }
        if rt_ceiling > self.system_ceiling {
            proof {
                lemma_strict_sorted_len(self.pi_stack@, self.system_ceiling);
            }
            self.push_stack();

            let newly_blocked = resource.tasks_mask & !sched.blocked_tasks & !pid_mask;
            let mut updated = resource;
            updated.blocked_mask = newly_blocked;
            self.resources_block[id] = updated;

            self.system_ceiling = rt_ceiling;
            block_tasks(sched, newly_blocked);
            return true;
        }
        false
    }

    /// Unlocks resource `id`: when its ceiling is the current system
    /// ceiling, the previous ceiling is restored from the stack, exactly
    /// the tasks the matching lock blocked are unblocked and selection is
    /// rerun.  A resource whose ceiling is not on top — or one at the
    /// idle level, which can never be locked — is refused with
    /// `NotLocked`; an identifier no resource was created under is
    /// refused with `DoesNotExist`.  Either refusal changes nothing.
    pub fn unlock(&mut self, sched: &mut Scheduler, id: ResourceId) -> (r: Result<
        (),
        KernelError,
    >)
        requires
            old(self).wf(),
            old(sched).wf(),
        ensures
            final(self).wf(),
            final(sched).wf(),
            final(self).resources_block@ == old(self).resources_block@,
            id >= old(self).resources_block@.len() ==> r == Err::<(), KernelError>(
                KernelError::DoesNotExist,
            ) && *final(self) == *old(self) && *final(sched) == *old(sched),
            id < old(self).resources_block@.len() && !(old(self).resources_block@[
                id as int
            ].rt_ceiling == old(self).system_ceiling && old(self).system_ceiling > 0) ==> r
                == Err::<(), KernelError>(KernelError::NotLocked) && *final(self) == *old(self)
                && *final(sched) == *old(sched),
            id < old(self).resources_block@.len() && old(self).resources_block@[
                id as int
            ].rt_ceiling == old(self).system_ceiling && old(self).system_ceiling > 0 ==> r
                == Ok::<(), KernelError>(()) && final(self).pi_stack@
                == old(self).pi_stack@.drop_last() && final(self).system_ceiling == old(
                self,
            ).pi_stack@.last() && *final(sched) == (Scheduler {
                blocked_tasks: old(sched).blocked_tasks & !old(self).resources_block@[
                    id as int
                ].blocked_mask,
                ..*old(sched)
            }).spec_rescheduled(),
    {
        if id >= self.resources_block.len() {
            return Err(KernelError::DoesNotExist);
        }
        let resource = self.resources_block[id];
        if resource.rt_ceiling == self.system_ceiling && self.system_ceiling > 0 {
            self.pop_stack();
            unblock_tasks(sched, resource.blocked_mask);
            reselect(sched);
            Ok(())
        } else {
            Err(KernelError::NotLocked)
        }
    }

    /// Restores the system ceiling from the top of the stack.
    fn pop_stack(&mut self)
        requires
            old(self).pi_stack@.len() > 0,
        ensures
            final(self).pi_stack@ == old(self).pi_stack@.drop_last(),
            final(self).system_ceiling == old(self).pi_stack@.last(),
            final(self).resources_block@ == old(self).resources_block@,
    {
        self.system_ceiling = self.pi_stack[self.pi_stack.len() - 1];
        self.pop_entry();
    }

    /// Saves the current system ceiling on the stack.
    fn push_stack(&mut self)
        requires
            old(self).pi_stack@.len() < MAX_RESOURCES,
        ensures
            final(self).pi_stack@ == old(self).pi_stack@.push(old(self).system_ceiling),
            final(self).system_ceiling == old(self).system_ceiling,
            final(self).resources_block@ == old(self).resources_block@,
    {
        self.pi_stack.push(self.system_ceiling);
    }

    /// Drops the top entry of the stack.
    fn pop_entry(&mut self)
        requires
            old(self).pi_stack@.len() > 0,
        ensures
            final(self).pi_stack@ == old(self).pi_stack@.drop_last(),
            final(self).system_ceiling == old(self).system_ceiling,
            final(self).resources_block@ == old(self).resources_block@,
    {
        self.pi_stack.pop();
    }
}

/// A strictly increasing sequence of values below `bound` cannot be
/// longer than `bound`: nested locks, whose saved ceilings strictly
/// increase, never outgrow the priority levels.
proof fn lemma_strict_sorted_len(s: Seq<u32>, bound: u32)
    requires
        forall|i: int, j: int| 0 <= i < j < s.len() ==> s[i] < s[j],
        forall|i: int| 0 <= i < s.len() ==> s[i] < bound,
    ensures
        s.len() <= bound,
    decreases s.len(),
{
    if s.len() > 0 {
        let t = s.drop_last();
        assert forall|i: int| 0 <= i < t.len() implies t[i] < s.last() by {
            assert(s[i] < s[s.len() - 1]);
        }
        lemma_strict_sorted_len(t, s.last());
    }
}

/// The set of tasks a registry lock blocks equals the set its unlock
/// unblocks: blocking a resource's newly-blocked set and unblocking that
/// same set leaves the scheduler's blocked set exactly as it was.
pub proof fn lemma_lock_unlock_blocked_roundtrip(block: ResourceControlBlock, sched: Scheduler)
    ensures
        (sched.blocked_tasks | block.spec_newly_blocked(sched)) & !block.spec_newly_blocked(
            sched,
        ) == sched.blocked_tasks,
{
    let m: u32 = block.tasks_mask;
    let b: u32 = sched.blocked_tasks;
    let x: u32 = 1u32 << sched.curr_tid;
    assert((m & !b & !x) & b == 0) by (bit_vector);
    crate::helpers::lemma_block_restore(b, m & !b & !x);
}

/// Nested acquisition of two resources blocks, in either order, exactly
/// the tasks that a single acquisition of one resource shared by both
/// task sets would block — and that resource's ceiling is the higher of
/// the two.  So nesting is equivalent to sequential acquisition at the
/// maximum ceiling; and since a lock always answers at once — granted or
/// refused, never queued — nested acquisition cannot deadlock.
pub proof fn lemma_nested_acquisition_max_ceiling(blocked: u32, m1: u32, m2: u32, pid_mask: u32)
    ensures
        (blocked | (m1 & !blocked & !pid_mask)) | (m2 & !(blocked | (m1 & !blocked & !pid_mask))
            & !pid_mask) == blocked | ((m1 | m2) & !blocked & !pid_mask),
        spec_msb(m1 | m2) == (if spec_msb(m1) >= spec_msb(m2) {
            spec_msb(m1)
        } else {
            spec_msb(m2)
        }),
{
    assert((blocked | (m1 & !blocked & !pid_mask)) | (m2 & !(blocked | (m1 & !blocked
        & !pid_mask)) & !pid_mask) == blocked | ((m1 | m2) & !blocked & !pid_mask))
        by (bit_vector);
    crate::helpers::lemma_msb_union(m1, m2);
}

/// A payload paired with its registry identifier.
pub struct Resource<T> {
    /// The guarded payload.
    pub inner: T,
    /// The registry index of this resource's control block.
    pub id: ResourceId,
}

impl<T> Resource<T> {
    /// Wraps a payload with the identifier `create` assigned to it.
    pub fn new(val: T, id: ResourceId) -> (r: Resource<T>)
        ensures
            r.inner == val,
            r.id == id,
    {
        Resource { inner: val, id }
    }

    /// Runs `handler` on the payload with the resource locked in the
    /// registry: lock, run, unlock.  On success the handler's result is
    /// returned and the registry and scheduler are exactly as a lock
    /// followed by its unlock leaves them — the ceiling stack as it was,
    /// the blocked set as it was, and selection rerun.  A refused lock
    /// answers `AccessDenied`, an identifier no resource was created
    /// under `DoesNotExist`; the handler does not run and nothing
    /// changes.
    pub fn acquire<R, F: Fn(&T) -> R>(
        &self,
        rm: &mut ResourceManager,
        sched: &mut Scheduler,
        handler: F,
    ) -> (r: Result<R, KernelError>)
        requires
            old(rm).wf(),
            old(sched).wf(),
            forall|t: &T| call_requires(handler, (t,)),
        ensures
            final(rm).wf(),
            final(sched).wf(),
            self.id >= old(rm).resources_block@.len() ==> r == Err::<R, KernelError>(
                KernelError::DoesNotExist,
            ) && *final(rm) == *old(rm) && *final(sched) == *old(sched),
            self.id < old(rm).resources_block@.len() && !(old(rm).resources_block@[
                self.id as int
            ].tasks_mask & (1u32 << old(sched).curr_tid) != 0 && old(rm).resources_block@[
                self.id as int
            ].rt_ceiling > old(rm).system_ceiling) ==> r == Err::<R, KernelError>(
                KernelError::AccessDenied,
            ) && *final(rm) == *old(rm) && *final(sched) == *old(sched),
            self.id < old(rm).resources_block@.len() && old(rm).resources_block@[
                self.id as int
            ].tasks_mask & (1u32 << old(sched).curr_tid) != 0 && old(rm).resources_block@[
                self.id as int
            ].rt_ceiling > old(rm).system_ceiling ==> (r matches Ok(v) && call_ensures(
                handler,
                (&self.inner,),
                v,
            )) && final(rm).resources_block@ == old(rm).resources_block@.update(
                self.id as int,
                (ResourceControlBlock {
                    blocked_mask: old(rm).resources_block@[self.id as int].spec_newly_blocked(
                        *old(sched),
                    ),
                    ..old(rm).resources_block@[self.id as int]
                }),
            ) && final(rm).pi_stack@ == old(rm).pi_stack@ && final(rm).system_ceiling == old(
                rm,
            ).system_ceiling && *final(sched) == (*old(sched)).spec_rescheduled(),
    {
        proof {
            if self.id < old(rm).resources_block@.len() {
                let m: u32 = old(rm).resources_block@[self.id as int].tasks_mask;
                let b: u32 = old(sched).blocked_tasks;
                let x: u32 = 1u32 << old(sched).curr_tid;
                assert((m & !b & !x) & b == 0) by (bit_vector);
                crate::helpers::lemma_block_restore(b, m & !b & !x);
            }
        }
        if self.id >= rm.resources_block.len() {
            return Err(KernelError::DoesNotExist);
        }
        if rm.lock(sched, self.id) {
            let res = handler(&self.inner);
            match rm.unlock(sched, self.id) {
                Ok(()) => {
                    proof {
                        assert(rm.pi_stack@ =~= old(rm).pi_stack@);
                    }
                    Ok(res)
                },
                Err(e) => Err(e),
            }
        } else {
            Err(KernelError::AccessDenied)
        }
    }

    /// Hands out the payload directly, without ceiling elevation, for
    /// privileged interrupt-service code; unprivileged callers are
    /// refused.
    pub fn access(&self, privileged: bool) -> (r: Result<&T, KernelError>)
        ensures
            privileged ==> (r matches Ok(v) && *v == self.inner),
            !privileged ==> (r matches Err(e) && e == KernelError::AccessDenied),
    {
        if privileged {
            Ok(&self.inner)
        } else {
            Err(KernelError::AccessDenied)
        }
    }
}

/// Registers a resource and wraps the payload in a managed [`Resource`].
/// The idle / privileged bit is forced into the access mask; only
/// privileged context may create resources.
pub fn create<T>(rm: &mut ResourceManager, resource: T, tasks_mask: u32, privileged: bool) -> (r:
    Result<Resource<T>, KernelError>)
    requires
        old(rm).wf(),
    ensures
        final(rm).wf(),
        !privileged ==> (r matches Err(e) && e == KernelError::AccessDenied) && *final(rm) == *old(
            rm,
        ),
        privileged && old(rm).resources_block@.len() >= MAX_RESOURCES ==> (r matches Err(e) && e
            == KernelError::LimitExceeded) && *final(rm) == *old(rm),
        privileged && old(rm).resources_block@.len() < MAX_RESOURCES ==> (r matches Ok(res)
            && res.inner == resource && res.id == old(rm).resources_block@.len())
            && final(rm).resources_block@ == old(rm).resources_block@.push(
            ResourceControlBlock {
                rt_ceiling: spec_msb(tasks_mask | 1u32),
                tasks_mask: tasks_mask | 1u32,
                blocked_mask: 0,
            },
        ) && final(rm).pi_stack@ == old(rm).pi_stack@ && final(rm).system_ceiling == old(
            rm,
        ).system_ceiling,
{
    let tasks_mask = tasks_mask | 1u32;
    if !privileged {
        return Err(KernelError::AccessDenied);
    }
    match rm.create(tasks_mask) {
        Ok(id) => Ok(Resource::new(resource, id)),
        Err(e) => Err(e),
    }
}

} // verus!
