//! Compile-time bounds of the kernel.

use vstd::prelude::*;

verus! {

/// Maximum number of tasks on one core, idle task included.  Task
/// identifiers (equal to priorities) live in `[0, MAX_TASKS)`, and every
/// task set fits in one 32-bit boolean vector.
pub const MAX_TASKS: u32 = 32;

/// Maximum number of resources on one core, and the depth of the priority
/// ceiling stack.
pub const MAX_RESOURCES: usize = 32;

} // verus!
