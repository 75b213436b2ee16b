use hartex_rust::errors::KernelError;
use hartex_rust::helpers::{generate_task_mask, get_msb};
use hartex_rust::scheduler::Scheduler;
use hartex_rust::tasks::{
    block_tasks, create_task, disable_preemption, enable_preemption, get_curr_tid, init, release,
    schedule, task_exit, unblock_tasks, SwitchRequest,
};

#[test]
fn msb_exact_values() {
    assert_eq!(get_msb(0), 0);
    assert_eq!(get_msb(1), 0);
    assert_eq!(get_msb(0b1010), 3);
    assert_eq!(get_msb(0b0100_0000), 6);
    assert_eq!(get_msb(0x8000_0000), 31);
    assert_eq!(get_msb(0xffff_ffff), 31);
}

#[test]
fn task_mask_from_list() {
    assert_eq!(generate_task_mask(&[]), 0);
    assert_eq!(generate_task_mask(&[1, 2, 3]), 0b1110);
    assert_eq!(generate_task_mask(&[0, 31]), 0x8000_0001);
    assert_eq!(generate_task_mask(&[2, 2]), 0b100);
}

#[test]
fn init_creates_idle_task() {
    let mut sched = Scheduler::new();
    assert_eq!(init(&mut sched, true), Ok(()));
    assert_eq!(sched.active_tasks & 1, 1);
    assert!(sched.is_preemptive);
}

#[test]
fn create_task_rejects_priority_zero() {
    let mut sched = Scheduler::new();
    init(&mut sched, true).unwrap();
    assert_eq!(
        create_task(&mut sched, 0, true),
        Err(KernelError::InvalidTaskPriority)
    );
}

#[test]
fn create_task_rejects_priority_at_max_tasks() {
    let mut sched = Scheduler::new();
    init(&mut sched, true).unwrap();
    assert_eq!(
        create_task(&mut sched, 32, true),
        Err(KernelError::InvalidTaskPriority)
    );
    assert_eq!(
        create_task(&mut sched, 40, true),
        Err(KernelError::InvalidTaskPriority)
    );
}

#[test]
fn create_task_rejects_duplicate_priority() {
    let mut sched = Scheduler::new();
    init(&mut sched, true).unwrap();
    assert_eq!(create_task(&mut sched, 3, true), Ok(()));
    assert_eq!(
        create_task(&mut sched, 3, true),
        Err(KernelError::TaskAlreadyExists)
    );
}

#[test]
fn create_task_rejects_unprivileged_caller() {
    let mut sched = Scheduler::new();
    init(&mut sched, true).unwrap();
    let before = sched.active_tasks;
    assert_eq!(
        create_task(&mut sched, 3, false),
        Err(KernelError::AccessDenied)
    );
    assert_eq!(sched.active_tasks, before);
}

#[test]
fn basic_release_runs_tasks_highest_first() {
    let mut sched = Scheduler::new();
    init(&mut sched, true).unwrap();
    create_task(&mut sched, 1, true).unwrap();
    create_task(&mut sched, 2, true).unwrap();
    create_task(&mut sched, 3, true).unwrap();

    release(&mut sched, 0b1110);

    let mut order = Vec::new();
    for _ in 0..3 {
        order.push(get_curr_tid(&sched));
        task_exit(&mut sched);
    }
    assert_eq!(order, vec![3, 2, 1]);
    // With every task finished only the idle task is left.
    assert_eq!(get_curr_tid(&sched), 0);
    schedule(&mut sched, true);
    assert_eq!(get_curr_tid(&sched), 0);
}

#[test]
fn idle_runs_when_nothing_released() {
    let mut sched = Scheduler::new();
    init(&mut sched, true).unwrap();
    create_task(&mut sched, 1, true).unwrap();
    schedule(&mut sched, true);
    assert_eq!(get_curr_tid(&sched), 0);
}

#[test]
fn idle_runs_when_all_ready_tasks_blocked() {
    let mut sched = Scheduler::new();
    init(&mut sched, true).unwrap();
    create_task(&mut sched, 1, true).unwrap();
    create_task(&mut sched, 2, true).unwrap();
    release(&mut sched, 0b110);
    assert_eq!(get_curr_tid(&sched), 2);
    block_tasks(&mut sched, 0b110);
    schedule(&mut sched, true);
    assert_eq!(get_curr_tid(&sched), 0);
    unblock_tasks(&mut sched, 0b110);
    schedule(&mut sched, true);
    assert_eq!(get_curr_tid(&sched), 2);
}

#[test]
fn schedule_requests_pendsv_when_privileged() {
    let mut sched = Scheduler::new();
    init(&mut sched, true).unwrap();
    create_task(&mut sched, 2, true).unwrap();
    sched.released_tasks |= 0b100;
    assert_eq!(schedule(&mut sched, true), SwitchRequest::PendSv);
    // The same selection again changes nothing, so no switch is requested.
    assert_eq!(schedule(&mut sched, true), SwitchRequest::NoSwitch);
}

#[test]
fn schedule_requests_svc_when_unprivileged() {
    let mut sched = Scheduler::new();
    init(&mut sched, true).unwrap();
    create_task(&mut sched, 2, true).unwrap();
    sched.released_tasks |= 0b100;
    assert_eq!(schedule(&mut sched, false), SwitchRequest::SvcCall);
}

#[test]
fn preemption_disable_nests() {
    let mut sched = Scheduler::new();
    init(&mut sched, true).unwrap();
    assert!(sched.is_preemptive);
    disable_preemption(&mut sched);
    disable_preemption(&mut sched);
    enable_preemption(&mut sched);
    assert!(!sched.is_preemptive);
    assert_eq!(sched.preempt_disable_count, 1);
    enable_preemption(&mut sched);
    assert!(sched.is_preemptive);
    assert_eq!(sched.preempt_disable_count, 0);
}

#[test]
fn schedule_is_noop_while_preemption_disabled() {
    let mut sched = Scheduler::new();
    init(&mut sched, true).unwrap();
    create_task(&mut sched, 2, true).unwrap();
    disable_preemption(&mut sched);
    release(&mut sched, 0b100);
    assert_eq!(get_curr_tid(&sched), 0);
    assert_eq!(schedule(&mut sched, true), SwitchRequest::NoSwitch);
    assert_eq!(get_curr_tid(&sched), 0);
    enable_preemption(&mut sched);
    assert_eq!(schedule(&mut sched, true), SwitchRequest::PendSv);
    assert_eq!(get_curr_tid(&sched), 2);
}

#[test]
fn task_exit_clears_active_bit() {
    let mut sched = Scheduler::new();
    init(&mut sched, true).unwrap();
    create_task(&mut sched, 1, true).unwrap();
    release(&mut sched, 0b10);
    assert_eq!(get_curr_tid(&sched), 1);
    task_exit(&mut sched);
    assert_eq!(sched.active_tasks & 0b10, 0);
    assert_eq!(get_curr_tid(&sched), 0);
}
