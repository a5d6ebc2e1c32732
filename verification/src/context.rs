//! Saved register records.
//!
//! A [`TaskContext`] is the minimal kernel-side register set needed to resume
//! a task after a switch: a return address plus the callee-saved registers.
//! A [`TrapContext`] stands for the full user-mode register snapshot that the
//! trap entry/exit code consumes; this core reads only the two fields it
//! writes at bootstrap (user program counter and user stack pointer), so the
//! record is reduced to those plain values.  Its byte size on a kernel stack
//! is fixed by [`crate::config::TRAP_CONTEXT_BYTES`].

use vstd::prelude::*;

verus! {

/// Minimal saved register set used to resume kernel-side execution.
#[derive(Copy, Clone)]
pub struct TaskContext {
    /// Return address loaded by the switch routine.
    pub ra: usize,
    /// Callee-saved general-purpose registers.
    pub s: [usize; 12],
}

impl TaskContext {
    /// The initial context of a task: "returning" from it lands in the resume
    /// entry point, which pops the trap snapshot above it and enters user
    /// mode.  All callee-saved registers start at zero.
    ///
    /// `restore_addr` is the address of the resume entry point, provided by
    /// the platform layer.
    pub fn goto_restore(restore_addr: usize) -> (cx: Self)
        ensures
            cx.ra == restore_addr,
            forall|k: int| 0 <= k < 12 ==> cx.s@[k] == 0,
    {
        Self { ra: restore_addr, s: [0; 12] }
    }
}

/// Full user-mode register snapshot, reduced to the fields this core writes.
#[derive(Copy, Clone)]
pub struct TrapContext {
    /// User program counter: where user-mode execution (re)starts.
    pub sepc: usize,
    /// User stack pointer at entry.
    pub sp: usize,
}

impl TrapContext {
    /// The snapshot the bootstrapper writes for a fresh task: program counter
    /// at the application's entry address, stack pointer at the top of its
    /// user stack.
    pub fn app_init_context(entry: usize, sp: usize) -> (cx: Self)
        ensures
            cx.sepc == entry,
            cx.sp == sp,
    {
        Self { sepc: entry, sp }
    }
}

} // verus!
