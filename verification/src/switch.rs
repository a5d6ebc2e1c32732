//! The handle pair consumed by the architecture-level switch routine.
//!
//! The switch routine itself is a non-returning assembly primitive outside
//! this core: given the location holding the current task's saved-context
//! pointer and the location holding the next task's, it saves the running
//! register set through the first and restores the set reached through the
//! second, transferring control.  The scheduler only ever decides *which*
//! pair of handles to hand it; that decision is what this crate verifies,
//! and [`SwitchHandles`] is its result.

use vstd::prelude::*;

verus! {

/// The two opaque handles the switch routine takes: where to save the
/// outgoing task's context pointer, and where to load the incoming one's.
#[derive(Copy, Clone, Debug, PartialEq, Eq, Structural)]
pub struct SwitchHandles {
    /// Location holding the outgoing task's saved-context pointer.
    pub current_task_cx_ptr2: usize,
    /// Location holding the incoming task's saved-context pointer.
    pub next_task_cx_ptr2: usize,
}

} // verus!
