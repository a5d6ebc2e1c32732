//! Task control block and the status state machine.

use vstd::prelude::*;

verus! {

/// Lifecycle of a task slot.
///
/// `UnInit` exists only before bootstrap; `Exited` is terminal and never
/// transitions further.  Bootstrap moves a slot to `Ready`; the scheduler
/// moves a slot to `Running` only when it selects it; a cooperative yield
/// moves the running slot back to `Ready`; a voluntary termination moves it
/// to `Exited`.
#[derive(Copy, Clone, Debug, PartialEq, Eq, Structural)]
pub enum TaskStatus {
    UnInit,
    Ready,
    Running,
    Exited,
}

/// Per-task record: the status and an opaque handle to the task's saved
/// context location on its kernel stack.
#[derive(Copy, Clone, Debug, PartialEq, Eq, Structural)]
pub struct TaskControlBlock {
    /// Address of the task's saved [`crate::context::TaskContext`];
    /// recorded once at bootstrap and stable for the task's lifetime.
    pub task_cx_ptr: usize,
    /// Current status of the slot.
    pub task_status: TaskStatus,
}

impl TaskControlBlock {
    /// Handle to the cell holding the task's saved-context pointer; the
    /// switch routine saves and loads through such handles.
    pub fn get_task_cx_ptr2(&self) -> (r: usize)
        ensures
            r == self.task_cx_ptr,
    {
        self.task_cx_ptr
    }
}

} // verus!
