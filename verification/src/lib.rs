//! A statically-configured, priority-based preemptive microkernel core.
//!
//! The crate models the state of one (or two) cooperative schedulers and the
//! data structures around them: a priority-indexed ready set, an Immediate
//! Ceiling Priority Protocol (ICPP) resource stack, lightweight binary
//! semaphores, and a cross-core shared-resource protocol.  Every kernel
//! decision (which task runs, who is blocked, what a lock does) is an
//! operation on plain bitmaps and integers and is verified here; the
//! architecture-specific glue (context switches, interrupt masking,
//! privilege traps) lives outside the library and drives these operations.

pub mod config;
pub mod errors;
pub mod helpers;
pub mod pi_stack;
pub mod resource;
pub mod resource_management;
pub mod scheduler;
pub mod semaphore;
pub mod shared;
pub mod spinlock;
pub mod tasks;

pub use errors::KernelError;
