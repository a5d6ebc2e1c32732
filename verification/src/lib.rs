//! Process-management core of a minimal cooperative, single-core kernel.
//!
//! The crate models the memory of the machine as plain-value arenas and keeps
//! every scheduling decision as a verified function:
//!
//! - [`config`] fixes the build-time memory layout: the fixed application
//!   slots and the per-slot kernel/user stack regions.
//! - [`context`] holds the two saved register records: the kernel-side
//!   [`context::TaskContext`] and the user-mode [`context::TrapContext`]
//!   snapshot, reduced to the fields this core reads.
//! - [`loader`] places application images into their fixed slots
//!   (zero-fill, then copy) and bootstraps the initial context pair on each
//!   task's kernel stack.
//! - [`task`] defines the task control block and its status state machine.
//! - [`manager`] owns the task table and picks the next Ready task in strict
//!   round-robin order.
//! - [`switch`] names the handle pair that the architecture-level switch
//!   routine consumes; performing the actual register swap is left to the
//!   unverified platform layer.
//! - [`syscall`] marshals the user-side yield/exit/write requests into the
//!   register values handed to the trap entry.
//!
//! The caller (the platform layer) owns the single [`manager::TaskManager`]
//! value; exclusive access through `&mut` stands in for the single-writer
//! discipline the original single-core design enforces structurally.

pub mod config;
pub mod context;
pub mod loader;
pub mod manager;
pub mod switch;
pub mod syscall;
pub mod task;
