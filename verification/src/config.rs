//! Build-time memory layout of the task pool.
//!
//! All regions are fixed at build time: a contiguous range of application
//! slots starting at [`APP_BASE_ADDRESS`], and one kernel stack plus one user
//! stack per slot, each page-aligned and never reclaimed or resized.
//! Addresses are modeled as plain integers; the arithmetic below is the whole
//! contract of the stack pool and the loader's slot placement.

use vstd::prelude::*;

verus! {

/// Capacity of the task table: the build-time maximum number of applications.
pub const MAX_APP_NUM: usize = 4;

/// Base address of the first application slot.
pub const APP_BASE_ADDRESS: usize = 0x80400000;

/// Size of one application slot in bytes.
pub const APP_SIZE_LIMIT: usize = 0x20000;

/// Size of a page; stack regions are aligned to it.
pub const PAGE_SIZE: usize = 0x1000;

/// Size of one kernel stack in bytes.
pub const KERNEL_STACK_SIZE: usize = 0x2000;

/// Size of one user stack in bytes.
pub const USER_STACK_SIZE: usize = 0x2000;

/// Base address of the kernel-stack pool (slot 0's lowest byte).
pub const KERNEL_STACK_BASE: usize = 0x80500000;

/// Base address of the user-stack pool (slot 0's lowest byte).
pub const USER_STACK_BASE: usize = 0x80510000;

/// Bytes per machine word of the target architecture.
pub const WORD_BYTES: usize = 8;

/// Words in a user-mode trap snapshot: 32 general registers, the status
/// register and the user program counter.
pub const TRAP_CONTEXT_WORDS: usize = 34;

/// Bytes occupied by a trap snapshot on a kernel stack.
pub const TRAP_CONTEXT_BYTES: usize = TRAP_CONTEXT_WORDS * WORD_BYTES;

/// Number of callee-saved general-purpose registers kept in a task context.
pub const CALLEE_SAVED_REGS: usize = 12;

/// Bytes occupied by a task context (return address + callee-saved registers).
pub const TASK_CONTEXT_BYTES: usize = (CALLEE_SAVED_REGS + 1) * WORD_BYTES;

/// Load base address of the application in `slot`.
pub open spec fn app_base(slot: int) -> int {
    APP_BASE_ADDRESS + slot * APP_SIZE_LIMIT
}

/// Lowest address of the kernel stack of `slot`.
pub open spec fn kernel_stack_bottom(slot: int) -> int {
    KERNEL_STACK_BASE + slot * KERNEL_STACK_SIZE
}

/// Top-of-stack address of the kernel stack of `slot` (one past its last byte).
pub open spec fn kernel_stack_top(slot: int) -> int {
    kernel_stack_bottom(slot) + KERNEL_STACK_SIZE
}

/// Lowest address of the user stack of `slot`.
pub open spec fn user_stack_bottom(slot: int) -> int {
    USER_STACK_BASE + slot * USER_STACK_SIZE
}

/// Top-of-stack address of the user stack of `slot`.
pub open spec fn user_stack_top(slot: int) -> int {
    user_stack_bottom(slot) + USER_STACK_SIZE
}

/// Address of the trap snapshot of `slot`: just below its kernel-stack top.
pub open spec fn trap_cx_addr(slot: int) -> int {
    kernel_stack_top(slot) - TRAP_CONTEXT_BYTES
}

/// Address of the saved task context of `slot`: immediately below its trap
/// snapshot.
pub open spec fn task_cx_addr(slot: int) -> int {
    trap_cx_addr(slot) - TASK_CONTEXT_BYTES
}

/// Application slots of distinct indices occupy disjoint address ranges.
pub proof fn lemma_app_slots_disjoint(s1: int, s2: int)
    requires
        0 <= s1 < s2 < MAX_APP_NUM,
    ensures
        app_base(s1) + APP_SIZE_LIMIT <= app_base(s2),
{
}

/// Kernel stacks of distinct slots occupy disjoint address ranges.
pub proof fn lemma_kernel_stacks_disjoint(s1: int, s2: int)
    requires
        0 <= s1 < s2 < MAX_APP_NUM,
    ensures
        kernel_stack_top(s1) <= kernel_stack_bottom(s2),
{
}

/// User stacks of distinct slots occupy disjoint address ranges.
pub proof fn lemma_user_stacks_disjoint(s1: int, s2: int)
    requires
        0 <= s1 < s2 < MAX_APP_NUM,
    ensures
        user_stack_top(s1) <= user_stack_bottom(s2),
{
}

/// Every kernel stack starts on a page boundary.
pub proof fn lemma_kernel_stack_page_aligned(slot: int)
    requires
        0 <= slot < MAX_APP_NUM,
    ensures
        kernel_stack_bottom(slot) % (PAGE_SIZE as int) == 0,
{
    assert(kernel_stack_bottom(slot) % (PAGE_SIZE as int) == 0) by (nonlinear_arith)
        requires 0 <= slot < MAX_APP_NUM,
    {
    }
}

/// The context pair of every slot lies inside that slot's own kernel stack.
pub proof fn lemma_contexts_inside_kernel_stack(slot: int)
    requires
        0 <= slot < MAX_APP_NUM,
    ensures
        kernel_stack_bottom(slot) <= task_cx_addr(slot),
        task_cx_addr(slot) + TASK_CONTEXT_BYTES == trap_cx_addr(slot),
        trap_cx_addr(slot) + TRAP_CONTEXT_BYTES == kernel_stack_top(slot),
{
}

} // verus!
