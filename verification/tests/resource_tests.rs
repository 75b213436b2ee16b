use hartex_rust::errors::KernelError;
use hartex_rust::pi_stack::PiStack;
use hartex_rust::resource::Resource;
use hartex_rust::resource_management::{
    create, Resource as ManagedResource, ResourceControlBlock, ResourceManager,
};
use hartex_rust::scheduler::Scheduler;
use hartex_rust::tasks::{create_task, get_curr_tid, init, release, task_exit};

fn core_with_tasks(priorities: &[u32]) -> Scheduler {
    let mut sched = Scheduler::new();
    init(&mut sched, true).unwrap();
    for &p in priorities {
        create_task(&mut sched, p, true).unwrap();
    }
    sched
}

#[test]
fn resource_new_forces_idle_bit_and_ceiling() {
    let r = Resource::new(7u32, 0b1010);
    assert_eq!(r.tasks_mask, 0b1011);
    assert_eq!(r.ceiling, 3);
    assert_eq!(r.blocked_mask, 0);
    assert_eq!(r.inner, 7);
}

#[test]
fn pi_mask_covers_priorities_up_to_ceiling() {
    assert_eq!(Resource::<u32>::get_pi_mask(0), 0b1);
    assert_eq!(Resource::<u32>::get_pi_mask(3), 0b1111);
    assert_eq!(Resource::<u32>::get_pi_mask(31), 0xffff_ffff);
}

#[test]
fn acquire_denied_outside_tasks_mask() {
    let mut sched = core_with_tasks(&[1, 2, 3]);
    let mut pi = PiStack::new();
    // Resource for tasks 1 and 3 only; task 2 is running.
    let mut res = Resource::new(0u32, 0b1010);
    release(&mut sched, 0b100);
    assert_eq!(get_curr_tid(&sched), 2);

    let before_blocked = sched.blocked_tasks;
    let out = res.acquire(&mut sched, &mut pi, |v| *v);
    assert_eq!(out, Err(KernelError::AccessDenied));
    // Nothing moved: no ceiling raised, nobody blocked.
    assert_eq!(pi.system_ceiling, -1);
    assert_eq!(pi.stack.len(), 0);
    assert_eq!(sched.blocked_tasks, before_blocked);
}

#[test]
fn lock_raises_ceiling_and_blocks_competitors() {
    let mut sched = core_with_tasks(&[1, 2, 3]);
    let mut pi = PiStack::new();
    let mut res = Resource::new(0u32, 0b1010);
    release(&mut sched, 0b10);
    assert_eq!(get_curr_tid(&sched), 1);

    assert_eq!(res.lock(&mut sched, &mut pi), Ok(()));
    // The system ceiling dominates the locked resource's ceiling.
    assert!(pi.system_ceiling >= res.ceiling as i32);
    assert_eq!(pi.system_ceiling, 3);
    // Exactly the other users of the resource were blocked.
    assert_eq!(res.blocked_mask, 0b1001);
    assert_eq!(sched.blocked_tasks, 0b1001);

    assert_eq!(res.unlock(&mut sched, &mut pi), Ok(()));
    assert_eq!(pi.system_ceiling, -1);
    assert_eq!(sched.blocked_tasks, 0);
}

#[test]
fn lock_unlock_restores_system_ceiling() {
    let mut sched = core_with_tasks(&[1, 2, 3]);
    let mut pi = PiStack::new();
    let mut low = Resource::new(0u32, 0b0010);
    let mut high = Resource::new(0u32, 0b1010);
    release(&mut sched, 0b10);

    assert_eq!(low.lock(&mut sched, &mut pi), Ok(()));
    let ceiling_after_low = pi.system_ceiling;
    let depth_after_low = pi.stack.len();
    assert_eq!(high.lock(&mut sched, &mut pi), Ok(()));
    assert_eq!(high.unlock(&mut sched, &mut pi), Ok(()));
    assert_eq!(pi.system_ceiling, ceiling_after_low);
    assert_eq!(pi.stack.len(), depth_after_low);
    assert_eq!(low.unlock(&mut sched, &mut pi), Ok(()));
    assert_eq!(pi.system_ceiling, -1);
}

#[test]
fn unlock_out_of_order_is_refused() {
    let mut sched = core_with_tasks(&[1, 2, 3]);
    let mut pi = PiStack::new();
    let mut low = Resource::new(0u32, 0b0010);
    let mut high = Resource::new(0u32, 0b1010);
    release(&mut sched, 0b10);

    assert_eq!(low.lock(&mut sched, &mut pi), Ok(()));
    assert_eq!(high.lock(&mut sched, &mut pi), Ok(()));
    // The outer lock's ceiling is not on top of the stack.
    assert_eq!(low.unlock(&mut sched, &mut pi), Err(KernelError::NotLocked));
    assert_eq!(high.unlock(&mut sched, &mut pi), Ok(()));
    assert_eq!(low.unlock(&mut sched, &mut pi), Ok(()));
}

#[test]
fn nested_acquisition_never_deadlocks() {
    // Deadlock-freedom scenario: two resources, task 1 locks the
    // lower-ceiling one and then the higher-ceiling one; both grants
    // succeed immediately and unlock cleanly in LIFO order.
    let mut sched = core_with_tasks(&[1, 2, 3]);
    let mut pi = PiStack::new();
    // Ceiling 2 and ceiling 3.
    let mut r2 = Resource::new(0u32, 0b0110);
    let mut r1 = Resource::new(0u32, 0b1010);
    release(&mut sched, 0b10);
    assert_eq!(get_curr_tid(&sched), 1);

    assert_eq!(r2.lock(&mut sched, &mut pi), Ok(()));
    assert_eq!(pi.system_ceiling, 2);
    // Task 2's request would now be refused, not queued: no waiting, no
    // deadlock.
    assert_eq!(r1.lock(&mut sched, &mut pi), Ok(()));
    assert_eq!(pi.system_ceiling, 3);
    assert_eq!(r1.unlock(&mut sched, &mut pi), Ok(()));
    assert_eq!(r2.unlock(&mut sched, &mut pi), Ok(()));
    assert_eq!(pi.system_ceiling, -1);
    // The caller itself was never blocked.
    assert_eq!(sched.blocked_tasks & 0b10, 0);
}

#[test]
fn same_ceiling_reacquisition_is_denied() {
    let mut sched = core_with_tasks(&[1, 2, 3]);
    let mut pi = PiStack::new();
    let mut a = Resource::new(0u32, 0b1010);
    let mut b = Resource::new(0u32, 0b1010);
    release(&mut sched, 0b10);

    assert_eq!(a.lock(&mut sched, &mut pi), Ok(()));
    // Equal ceiling does not exceed the system ceiling: refused.
    assert_eq!(b.lock(&mut sched, &mut pi), Err(KernelError::AccessDenied));
    assert_eq!(a.unlock(&mut sched, &mut pi), Ok(()));
}

#[test]
fn priority_inversion_is_bounded() {
    // Tasks 1, 2, 3; the resource is shared by tasks 1 and 3.  While task
    // 1 holds it, task 2 (outside the mask) may still run, and task 3 is
    // suppressed until the unlock.
    let mut sched = core_with_tasks(&[1, 2, 3]);
    let mut pi = PiStack::new();
    let mut res = Resource::new(0u32, 0b1010);

    release(&mut sched, 0b10);
    assert_eq!(get_curr_tid(&sched), 1);
    assert_eq!(res.lock(&mut sched, &mut pi), Ok(()));

    // Task 2 becomes ready: it runs, despite the lock, because it does
    // not use the resource.
    release(&mut sched, 0b100);
    assert_eq!(get_curr_tid(&sched), 2);

    // Task 3 becomes ready: it is in the resource's mask and stays
    // suppressed while the lock is held.
    release(&mut sched, 0b1000);
    assert_eq!(get_curr_tid(&sched), 2);

    // Task 2 finishes; task 1 resumes with the lock held.
    task_exit(&mut sched);
    assert_eq!(get_curr_tid(&sched), 1);

    // Task 1 unlocks: task 3 is released and, as highest priority, runs.
    assert_eq!(res.unlock(&mut sched, &mut pi), Ok(()));
    assert_eq!(get_curr_tid(&sched), 3);
}

#[test]
fn acquire_runs_handler_and_restores_state() {
    let mut sched = core_with_tasks(&[1, 2, 3]);
    let mut pi = PiStack::new();
    let mut res = Resource::new(21u32, 0b1010);
    release(&mut sched, 0b10);

    let out = res.acquire(&mut sched, &mut pi, |v| *v * 2);
    assert_eq!(out, Ok(42));
    assert_eq!(pi.system_ceiling, -1);
    assert_eq!(pi.stack.len(), 0);
    assert_eq!(sched.blocked_tasks, 0);
}

#[test]
fn registry_create_respects_limit() {
    let mut rm = ResourceManager::new();
    for i in 0..32 {
        assert_eq!(rm.create(0b10), Ok(i));
    }
    assert_eq!(rm.create(0b10), Err(KernelError::LimitExceeded));
}

#[test]
fn control_block_set_computes_ceiling() {
    let mut block = ResourceControlBlock::new();
    assert_eq!(block.rt_ceiling, 0);
    assert_eq!(block.tasks_mask, 0);
    block.set(0b10110);
    assert_eq!(block.tasks_mask, 0b10110);
    assert_eq!(block.rt_ceiling, 4);
}

#[test]
fn registry_lock_blocks_resource_users() {
    let mut rm = ResourceManager::new();
    let mut sched = core_with_tasks(&[1, 2, 3]);
    let id = rm.create(0b1011).unwrap();
    release(&mut sched, 0b10);
    assert_eq!(get_curr_tid(&sched), 1);

    assert!(rm.lock(&mut sched, id));
    assert_eq!(rm.system_ceiling, 3);
    // Exactly the resource's other users are suppressed; task 2, outside
    // the access mask, is not.
    assert_eq!(sched.blocked_tasks, 0b1001);
    assert_eq!(rm.resources_block[id].blocked_mask, 0b1001);

    assert_eq!(rm.unlock(&mut sched, id), Ok(()));
    assert_eq!(rm.system_ceiling, 0);
    assert_eq!(sched.blocked_tasks, 0);
}

#[test]
fn registry_nested_unlock_releases_only_its_own_set() {
    // Resources of ceilings 2 and 3 locked nested by task 1: unlocking
    // the inner one must leave the outer lock's victims suppressed while
    // the outer resource is still held.
    let mut rm = ResourceManager::new();
    let mut sched = core_with_tasks(&[1, 2, 3]);
    let low = rm.create(0b0110).unwrap();
    let high = rm.create(0b1010).unwrap();
    release(&mut sched, 0b10);
    assert_eq!(get_curr_tid(&sched), 1);

    assert!(rm.lock(&mut sched, low));
    assert_eq!(rm.system_ceiling, 2);
    assert_eq!(sched.blocked_tasks, 0b0100);

    assert!(rm.lock(&mut sched, high));
    assert_eq!(rm.system_ceiling, 3);
    assert_eq!(sched.blocked_tasks, 0b1100);

    assert_eq!(rm.unlock(&mut sched, high), Ok(()));
    // Task 2, blocked by the still-held outer lock, stays blocked.
    assert_eq!(rm.system_ceiling, 2);
    assert_eq!(sched.blocked_tasks, 0b0100);

    assert_eq!(rm.unlock(&mut sched, low), Ok(()));
    assert_eq!(rm.system_ceiling, 0);
    assert_eq!(sched.blocked_tasks, 0);
}

#[test]
fn registry_lock_denied_cases_change_nothing() {
    let mut rm = ResourceManager::new();
    let mut sched = core_with_tasks(&[1, 2, 3]);
    let id = rm.create(0b1010).unwrap();
    release(&mut sched, 0b100);
    assert_eq!(get_curr_tid(&sched), 2);

    // Task 2 is not in the mask.
    assert!(!rm.lock(&mut sched, id));
    assert_eq!(rm.system_ceiling, 0);
    assert_eq!(sched.blocked_tasks, 0);

    // Unlocking a resource that is not locked is refused.
    assert_eq!(rm.unlock(&mut sched, id), Err(KernelError::NotLocked));
}

#[test]
fn managed_resource_acquire_and_access() {
    let mut rm = ResourceManager::new();
    let mut sched = core_with_tasks(&[1, 2, 3]);

    let res = create(&mut rm, 10u32, 0b1010, true).unwrap();
    release(&mut sched, 0b10);

    let out = res.acquire(&mut rm, &mut sched, |v| *v * 2);
    assert_eq!(out, Ok(20));
    assert_eq!(rm.system_ceiling, 0);
    assert_eq!(sched.blocked_tasks, 0);

    assert_eq!(res.access(true), Ok(&10));
    assert_eq!(res.access(false), Err(KernelError::AccessDenied));
}

#[test]
fn managed_resource_acquire_reports_refusals() {
    let mut rm = ResourceManager::new();
    let mut sched = core_with_tasks(&[1, 2, 3]);

    // Task 2 is outside the resource's access mask.
    let res = create(&mut rm, 10u32, 0b1010, true).unwrap();
    release(&mut sched, 0b100);
    assert_eq!(get_curr_tid(&sched), 2);
    let out = res.acquire(&mut rm, &mut sched, |v| *v);
    assert_eq!(out, Err(KernelError::AccessDenied));
    assert_eq!(rm.system_ceiling, 0);
    assert_eq!(sched.blocked_tasks, 0);

    // A handle whose identifier names no created resource is refused.
    let stray = ManagedResource::new(0u32, 7);
    let out = stray.acquire(&mut rm, &mut sched, |v| *v);
    assert_eq!(out, Err(KernelError::DoesNotExist));
}

#[test]
fn managed_create_requires_privilege() {
    let mut rm = ResourceManager::new();
    assert!(matches!(
        create(&mut rm, 0u32, 0b1010, false),
        Err(KernelError::AccessDenied)
    ));
    assert_eq!(rm.resources_block.len(), 0);
}

#[test]
fn registry_refuses_unknown_ids() {
    let mut rm = ResourceManager::new();
    let mut sched = core_with_tasks(&[1]);
    release(&mut sched, 0b10);
    // No resource was created yet: the identifier names nothing.
    assert!(!rm.lock(&mut sched, 0));
    assert_eq!(rm.unlock(&mut sched, 0), Err(KernelError::DoesNotExist));
    assert_eq!(rm.system_ceiling, 0);
}

#[test]
fn pi_stack_underflow_is_reported() {
    let mut pi = PiStack::new();
    assert_eq!(pi.pop_stack(), Err(KernelError::Underflow));
}

#[test]
fn pi_stack_overflow_is_reported() {
    let mut pi = PiStack::new();
    for c in 0..32 {
        assert_eq!(pi.push_stack(c), Ok(()));
    }
    // The depth bound is reached: a further push is refused.
    assert_eq!(pi.push_stack(32), Err(KernelError::LimitExceeded));
}
