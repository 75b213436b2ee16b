//! Error codes returned by kernel operations.
//!
//! All failures are propagated as values; the kernel never aborts.

use vstd::prelude::*;

verus! {

/// The error codes that kernel operations hand back to the application.
#[derive(Clone, Copy, Debug, PartialEq, Eq, Structural)]
pub enum KernelError {
    /// A static capacity bound (task count, resource count, stack depth)
    /// would be exceeded.
    LimitExceeded,
    /// An unprivileged caller attempted a privileged operation, a task
    /// attempted a resource outside its access mask, or a lock's ceiling
    /// does not dominate the current system ceiling.
    AccessDenied,
    /// A stack buffer is too small to hold the initial task frame.
    StackTooSmall,
    /// An unlock was attempted on a resource whose ceiling is not on top of
    /// the priority ceiling stack.
    NotLocked,
    /// A task was created at priority 0 (reserved for idle) or at a
    /// priority outside `[1, MAX_TASKS)`.
    InvalidTaskPriority,
    /// A task with the requested priority already exists.
    TaskAlreadyExists,
    /// The referenced object was never created.
    DoesNotExist,
    /// The priority ceiling stack was popped while empty.
    Underflow,
}

} // verus!
