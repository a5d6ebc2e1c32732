//! Task table and round-robin scheduler.
//!
//! The [`TaskManager`] owns the fixed table of task control blocks and the
//! `current_task` index.  Selection is strictly round-robin: starting just
//! after the current slot and wrapping modulo the task count, the first
//! `Ready` slot wins; [`scan_ready`] is the mathematical form of that scan
//! and every operation's contract is stated against it.
//!
//! The original single-core design guards this state structurally: only the
//! scheduler, on the one hardware thread, ever touches it.  Here that
//! single-writer discipline is the exclusive `&mut` borrow the caller holds.
//! Switching itself is the platform's non-returning primitive; the scheduler
//! hands back the [`SwitchHandles`] pair it must be invoked with, and a
//! `None` from [`TaskManager::run_next_task`] is the fatal exhaustion
//! report: every slot has exited and the kernel must halt.

use vstd::arithmetic::div_mod::lemma_mod_multiples_vanish;
use vstd::arithmetic::div_mod::lemma_small_mod;
use vstd::prelude::*;

use crate::config::MAX_APP_NUM;
use crate::config::app_base;
use crate::config::task_cx_addr;
use crate::config::user_stack_top;
use crate::loader::KernelStack;
use crate::loader::UserStack;
use crate::loader::init_app_cx;
use crate::switch::SwitchHandles;
use crate::task::TaskControlBlock;
use crate::task::TaskStatus;

verus! {

/// The round-robin scan, as a function: starting at offset `k` past
/// `current` and wrapping modulo `num_app`, the first `Ready` slot among the
/// remaining `num_app + 1 - k` candidates, if any.
pub open spec fn scan_ready(
    tasks: Seq<TaskControlBlock>,
    current: int,
    num_app: int,
    k: int,
) -> Option<int>
    recommends
        1 <= num_app,
        0 <= current < num_app,
        1 <= k <= num_app + 1,
    decreases num_app + 1 - k,
{
    if num_app < 1 || k > num_app {
        None
    } else if tasks[(current + k) % num_app].task_status == TaskStatus::Ready {
        Some((current + k) % num_app)
    } else {
        scan_ready(tasks, current, num_app, k + 1)
    }
}

/// Offset at which the scan starting after `current` reaches slot `s`:
/// the unique `j` in `1 ..= num_app` with `(current + j) % num_app == s`.
pub open spec fn scan_offset_of(current: int, s: int, num_app: int) -> int {
    if s > current {
        s - current
    } else {
        s + num_app - current
    }
}

/// Scheduler state: the task table and the index of the most recently
/// scheduled slot.
pub struct TaskManager {
    /// Number of applications; slots `0 .. num_app` are in use.
    pub num_app: usize,
    /// The task control blocks, indexed by slot.
    pub tasks: Vec<TaskControlBlock>,
    /// The most recently scheduled slot, even momentarily after that task
    /// has exited.
    pub current_task: usize,
}

impl TaskManager {
    /// Status of slot `s`.
    pub open spec fn status(self, s: int) -> TaskStatus {
        self.tasks@[s].task_status
    }

    /// Well-formedness: the table is exactly `num_app` slots, the current
    /// index is in range, and at most one slot is `Running` — and then it is
    /// the current one.
    pub open spec fn wf(self) -> bool {
        &&& self.tasks@.len() == self.num_app
        &&& 1 <= self.num_app <= MAX_APP_NUM
        &&& self.current_task < self.num_app
        &&& forall|i: int|
            0 <= i < self.num_app && (#[trigger] self.tasks@[i]).task_status == TaskStatus::Running
                ==> i == self.current_task
    }

    /// The slot the round-robin scan selects next, if any.
    pub open spec fn next_ready_task(self) -> Option<int> {
        scan_ready(self.tasks@, self.current_task as int, self.num_app as int, 1)
    }

    /// Builds the task table: bootstraps every slot's context pair on its
    /// kernel stack, records the returned handles, and marks every slot
    /// `Ready`.  Runs once, before any switch.
    pub fn new(
        num_app: usize,
        kernel_stacks: &mut Vec<KernelStack>,
        user_stacks: &Vec<UserStack>,
        restore_addr: usize,
    ) -> (m: TaskManager)
        requires
            1 <= num_app <= MAX_APP_NUM,
            old(kernel_stacks)@.len() == MAX_APP_NUM,
            user_stacks@.len() == MAX_APP_NUM,
            forall|i: int| 0 <= i < MAX_APP_NUM ==> (#[trigger] old(kernel_stacks)@[i]).slot == i,
            forall|i: int| 0 <= i < MAX_APP_NUM ==> (#[trigger] user_stacks@[i]).slot == i,
        ensures
            m.wf(),
            m.num_app == num_app,
            m.current_task == 0,
            forall|i: int| 0 <= i < num_app ==> m.status(i) == TaskStatus::Ready,
            forall|i: int|
                0 <= i < num_app ==> (#[trigger] m.tasks@[i]).task_cx_ptr == task_cx_addr(i),
            final(kernel_stacks)@.len() == MAX_APP_NUM,
            forall|i: int|
                0 <= i < MAX_APP_NUM ==> (#[trigger] final(kernel_stacks)@[i]).slot == i,
            forall|i: int|
                0 <= i < num_app ==> match (#[trigger] final(kernel_stacks)@[i]).task_cx {
                    Some(c) => c.ra == restore_addr && (forall|r: int| 0 <= r < 12 ==> c.s@[r] == 0),
                    None => false,
                },
            forall|i: int|
                0 <= i < num_app ==> match (#[trigger] final(kernel_stacks)@[i]).trap_cx {
                    Some(t) => t.sepc == app_base(i) && t.sp == user_stack_top(i),
                    None => false,
                },
            forall|i: int|
                num_app <= i < MAX_APP_NUM ==> final(kernel_stacks)@[i] == old(kernel_stacks)@[i],
    {
        let mut tasks: Vec<TaskControlBlock> = Vec::new();
        let mut i: usize = 0;
        while i < num_app
            invariant
                i <= num_app,
                1 <= num_app <= MAX_APP_NUM,
                tasks@.len() == i,
                kernel_stacks@.len() == MAX_APP_NUM,
                user_stacks@.len() == MAX_APP_NUM,
                forall|k: int| 0 <= k < MAX_APP_NUM ==> (#[trigger] kernel_stacks@[k]).slot == k,
                forall|k: int| 0 <= k < MAX_APP_NUM ==> (#[trigger] user_stacks@[k]).slot == k,
                forall|k: int|
                    0 <= k < i ==> (#[trigger] tasks@[k]).task_status == TaskStatus::Ready,
                forall|k: int| 0 <= k < i ==> (#[trigger] tasks@[k]).task_cx_ptr == task_cx_addr(k),
                forall|k: int|
                    0 <= k < i ==> match (#[trigger] kernel_stacks@[k]).task_cx {
                        Some(c) => c.ra == restore_addr && (forall|r: int|
                            0 <= r < 12 ==> c.s@[r] == 0),
                        None => false,
                    },
                forall|k: int|
                    0 <= k < i ==> match (#[trigger] kernel_stacks@[k]).trap_cx {
                        Some(t) => t.sepc == app_base(k) && t.sp == user_stack_top(k),
                        None => false,
                    },
                forall|k: int|
                    i <= k < MAX_APP_NUM ==> #[trigger] kernel_stacks@[k] == old(kernel_stacks)@[k],
            decreases num_app - i,
        {
            let addr: usize = init_app_cx(
                i,
                &mut kernel_stacks[i],
                &user_stacks[i],
                restore_addr,
            );
            tasks.push(TaskControlBlock { task_cx_ptr: addr, task_status: TaskStatus::Ready });
            i += 1;
        }
        TaskManager { num_app, tasks, current_task: 0 }
    }

    /// Marks slot 0 `Running` and returns the handle the very first switch
    /// must load; the outgoing side of that switch writes into a discarded
    /// scratch cell, since no task state exists yet to save.
    pub fn run_first_task(&mut self) -> (next_task_cx_ptr2: usize)
        requires
            old(self).wf(),
            old(self).current_task == 0,
            forall|i: int| 0 <= i < old(self).num_app ==> old(self).status(i) == TaskStatus::Ready,
        ensures
            final(self).wf(),
            final(self).num_app == old(self).num_app,
            final(self).current_task == 0,
            final(self).status(0) == TaskStatus::Running,
            forall|i: int|
                1 <= i < old(self).num_app ==> final(self).tasks@[i] == old(self).tasks@[i],
            final(self).tasks@[0].task_cx_ptr == old(self).tasks@[0].task_cx_ptr,
            next_task_cx_ptr2 == old(self).tasks@[0].task_cx_ptr,
    {
        let ptr: usize = self.tasks[0].task_cx_ptr;
        self.tasks[0] = TaskControlBlock { task_cx_ptr: ptr, task_status: TaskStatus::Running };
        self.tasks[0].get_task_cx_ptr2()
    }

    /// Moves the currently `Running` slot back to `Ready`: the state half of
    /// a cooperative yield.  Pure state mutation, no switch.
    pub fn mark_current_suspended(&mut self)
        requires
            old(self).wf(),
            old(self).status(old(self).current_task as int) == TaskStatus::Running,
        ensures
            final(self).wf(),
            final(self).num_app == old(self).num_app,
            final(self).current_task == old(self).current_task,
            final(self).status(old(self).current_task as int) == TaskStatus::Ready,
            forall|i: int|
                0 <= i < old(self).num_app && old(self).status(i) == TaskStatus::Exited
                    ==> final(self).status(i) == TaskStatus::Exited,
            final(self).tasks@ == old(self).tasks@.update(
                old(self).current_task as int,
                (TaskControlBlock {
                    task_cx_ptr: old(self).tasks@[old(self).current_task as int].task_cx_ptr,
                    task_status: TaskStatus::Ready,
                }),
            ),
    {
        let current: usize = self.current_task;
        let ptr: usize = self.tasks[current].task_cx_ptr;
        self.tasks[current] = TaskControlBlock {
            task_cx_ptr: ptr,
            task_status: TaskStatus::Ready,
        };
    }

    /// Moves the currently `Running` slot to `Exited`.  Terminal: nothing
    /// ever leaves `Exited` again.
    pub fn mark_current_exited(&mut self)
        requires
            old(self).wf(),
            old(self).status(old(self).current_task as int) == TaskStatus::Running,
        ensures
            final(self).wf(),
            final(self).num_app == old(self).num_app,
            final(self).current_task == old(self).current_task,
            final(self).status(old(self).current_task as int) == TaskStatus::Exited,
            forall|i: int|
                0 <= i < old(self).num_app && old(self).status(i) == TaskStatus::Exited
                    ==> final(self).status(i) == TaskStatus::Exited,
            final(self).tasks@ == old(self).tasks@.update(
                old(self).current_task as int,
                (TaskControlBlock {
                    task_cx_ptr: old(self).tasks@[old(self).current_task as int].task_cx_ptr,
                    task_status: TaskStatus::Exited,
                }),
            ),
    {
        let current: usize = self.current_task;
        let ptr: usize = self.tasks[current].task_cx_ptr;
        self.tasks[current] = TaskControlBlock {
            task_cx_ptr: ptr,
            task_status: TaskStatus::Exited,
        };
    }

    /// Scans `(current + 1) % num_app, (current + 2) % num_app, …` for
    /// `num_app` steps and returns the first `Ready` slot, or nothing if no
    /// slot at all is `Ready` (the current one included).
    pub fn find_next_task(&self) -> (r: Option<usize>)
        requires
            self.wf(),
        ensures
            match r {
                Some(id) => id < self.num_app && self.next_ready_task() == Some(id as int),
                None => self.next_ready_task() is None,
            },
    {
        let mut k: usize = 1;
        while k <= self.num_app
            invariant
                self.wf(),
                1 <= k <= self.num_app + 1,
                self.next_ready_task() == scan_ready(
                    self.tasks@,
                    self.current_task as int,
                    self.num_app as int,
                    k as int,
                ),
            decreases self.num_app + 1 - k,
        {
            let id: usize = (self.current_task + k) % self.num_app;
            if self.tasks[id].task_status == TaskStatus::Ready {
                return Some(id);
            }
            k += 1;
        }
        None
    }

    /// Resolves the round-robin choice: if a `Ready` slot exists, marks it
    /// `Running`, makes it current, and returns the handle pair for the
    /// switch out of the previous slot's context.  Returns `None` — the
    /// fatal exhaustion report, after which the caller must halt rather
    /// than schedule — exactly when no slot is `Ready`, leaving the state
    /// untouched.
    pub fn run_next_task(&mut self) -> (r: Option<SwitchHandles>)
        requires
            old(self).wf(),
            old(self).status(old(self).current_task as int) != TaskStatus::Running,
        ensures
            final(self).wf(),
            final(self).num_app == old(self).num_app,
            forall|i: int|
                0 <= i < old(self).num_app && old(self).status(i) == TaskStatus::Exited
                    ==> final(self).status(i) == TaskStatus::Exited,
            match r {
                Some(h) => {
                    &&& old(self).next_ready_task() == Some(final(self).current_task as int)
                    &&& final(self).status(final(self).current_task as int) == TaskStatus::Running
                    &&& forall|i: int|
                        0 <= i < old(self).num_app && i != final(self).current_task
                            ==> final(self).tasks@[i] == old(self).tasks@[i]
                    &&& final(self).tasks@[final(self).current_task as int].task_cx_ptr
                        == old(self).tasks@[final(self).current_task as int].task_cx_ptr
                    &&& h.current_task_cx_ptr2
                        == old(self).tasks@[old(self).current_task as int].task_cx_ptr
                    &&& h.next_task_cx_ptr2
                        == old(self).tasks@[final(self).current_task as int].task_cx_ptr
                },
                None => {
                    &&& old(self).next_ready_task() is None
                    &&& final(self).tasks@ == old(self).tasks@
                    &&& final(self).current_task == old(self).current_task
                },
            },
    {
        if let Some(next) = self.find_next_task() {
            proof {
                lemma_scan_ready_selects_ready(
                    self.tasks@,
                    self.current_task as int,
                    self.num_app as int,
                    1,
                    next as int,
                );
            }
            let current: usize = self.current_task;
            let ptr: usize = self.tasks[next].task_cx_ptr;
            self.tasks[next] = TaskControlBlock {
                task_cx_ptr: ptr,
                task_status: TaskStatus::Running,
            };
            self.current_task = next;
            let current_task_cx_ptr2: usize = self.tasks[current].get_task_cx_ptr2();
            let next_task_cx_ptr2: usize = self.tasks[next].get_task_cx_ptr2();
            Some(SwitchHandles { current_task_cx_ptr2, next_task_cx_ptr2 })
        } else {
            None
        }
    }

    /// The cooperative yield seen from the syscall layer: marks the current
    /// slot `Ready`, then schedules.  Since the yielding slot itself is
    /// `Ready` again, a switch target always exists (possibly the same
    /// slot), so this always returns a handle pair.
    pub fn suspend_current_and_run_next(&mut self) -> (r: Option<SwitchHandles>)
        requires
            old(self).wf(),
            old(self).status(old(self).current_task as int) == TaskStatus::Running,
        ensures
            final(self).wf(),
            final(self).num_app == old(self).num_app,
            r is Some,
            forall|i: int|
                0 <= i < old(self).num_app && old(self).status(i) == TaskStatus::Exited
                    ==> final(self).status(i) == TaskStatus::Exited,
            ({
                let cur = old(self).current_task as int;
                let marked = old(self).tasks@.update(
                    cur,
                    (TaskControlBlock {
                        task_cx_ptr: old(self).tasks@[cur].task_cx_ptr,
                        task_status: TaskStatus::Ready,
                    }),
                );
                match r {
                    Some(h) => {
                        &&& scan_ready(marked, cur, old(self).num_app as int, 1) == Some(
                            final(self).current_task as int,
                        )
                        &&& final(self).status(final(self).current_task as int)
                            == TaskStatus::Running
                        &&& forall|i: int|
                            0 <= i < old(self).num_app && i != final(self).current_task
                                ==> final(self).tasks@[i] == marked[i]
                        &&& final(self).tasks@[final(self).current_task as int].task_cx_ptr
                            == marked[final(self).current_task as int].task_cx_ptr
                        &&& h.current_task_cx_ptr2 == old(self).tasks@[cur].task_cx_ptr
                        &&& h.next_task_cx_ptr2
                            == marked[final(self).current_task as int].task_cx_ptr
                    },
                    None => false,
                }
            }),
    {
        self.mark_current_suspended();
        proof {
            lemma_scan_ready_complete(
                self.tasks@,
                self.current_task as int,
                self.num_app as int,
                self.current_task as int,
            );
        }
        self.run_next_task()
    }

    /// The voluntary termination seen from the syscall layer: marks the
    /// current slot `Exited` — terminal — then schedules.  `None` is the
    /// fatal exhaustion report: every slot has now exited and the caller
    /// must halt instead of switching.
    pub fn exit_current_and_run_next(&mut self) -> (r: Option<SwitchHandles>)
        requires
            old(self).wf(),
            old(self).status(old(self).current_task as int) == TaskStatus::Running,
        ensures
            final(self).wf(),
            final(self).num_app == old(self).num_app,
            final(self).status(old(self).current_task as int) == TaskStatus::Exited,
            forall|i: int|
                0 <= i < old(self).num_app && old(self).status(i) == TaskStatus::Exited
                    ==> final(self).status(i) == TaskStatus::Exited,
            ({
                let cur = old(self).current_task as int;
                let marked = old(self).tasks@.update(
                    cur,
                    (TaskControlBlock {
                        task_cx_ptr: old(self).tasks@[cur].task_cx_ptr,
                        task_status: TaskStatus::Exited,
                    }),
                );
                match r {
                    Some(h) => {
                        &&& scan_ready(marked, cur, old(self).num_app as int, 1) == Some(
                            final(self).current_task as int,
                        )
                        &&& final(self).status(final(self).current_task as int)
                            == TaskStatus::Running
                        &&& forall|i: int|
                            0 <= i < old(self).num_app && i != final(self).current_task
                                ==> final(self).tasks@[i] == marked[i]
                        &&& final(self).tasks@[final(self).current_task as int].task_cx_ptr
                            == marked[final(self).current_task as int].task_cx_ptr
                        &&& h.current_task_cx_ptr2 == old(self).tasks@[cur].task_cx_ptr
                        &&& h.next_task_cx_ptr2
                            == marked[final(self).current_task as int].task_cx_ptr
                    },
                    None => {
                        &&& scan_ready(marked, cur, old(self).num_app as int, 1) is None
                        &&& final(self).tasks@ == marked
                        &&& final(self).current_task == old(self).current_task
                    },
                }
            }),
    {
        self.mark_current_exited();
        self.run_next_task()
    }
}

/// The scan only ever selects a `Ready` slot, and a valid one.
pub proof fn lemma_scan_ready_selects_ready(
    tasks: Seq<TaskControlBlock>,
    current: int,
    num_app: int,
    k: int,
    id: int,
)
    requires
        1 <= num_app,
        0 <= current < num_app,
        tasks.len() == num_app,
        1 <= k,
        scan_ready(tasks, current, num_app, k) == Some(id),
    ensures
        0 <= id < num_app,
        tasks[id].task_status == TaskStatus::Ready,
    decreases num_app + 1 - k,
{
    if k <= num_app && tasks[(current + k) % num_app].task_status != TaskStatus::Ready {
        lemma_scan_ready_selects_ready(tasks, current, num_app, k + 1, id);
    }
}

/// A scan that comes back empty really saw every slot: slot `s`, reached at
/// offset `scan_offset_of(current, s, num_app)`, was not `Ready`.
pub proof fn lemma_scan_ready_none_not_ready(
    tasks: Seq<TaskControlBlock>,
    current: int,
    num_app: int,
    k: int,
    s: int,
)
    requires
        1 <= num_app,
        0 <= current < num_app,
        tasks.len() == num_app,
        0 <= s < num_app,
        1 <= k <= num_app + 1,
        k <= scan_offset_of(current, s, num_app),
        scan_ready(tasks, current, num_app, k) is None,
    ensures
        tasks[s].task_status != TaskStatus::Ready,
    decreases num_app + 1 - k,
{
    let j = scan_offset_of(current, s, num_app);
    assert(1 <= j <= num_app);
    if s > current {
        lemma_small_mod(s as nat, num_app as nat);
        assert((current + j) % num_app == s);
    } else {
        lemma_mod_multiples_vanish(1, s, num_app);
        lemma_small_mod(s as nat, num_app as nat);
        assert((current + j) % num_app == s);
    }
    if j == k {
        assert(tasks[s].task_status != TaskStatus::Ready);
    } else {
        lemma_scan_ready_none_not_ready(tasks, current, num_app, k + 1, s);
    }
}

/// If any slot at all is `Ready`, the scan finds one.
pub proof fn lemma_scan_ready_complete(
    tasks: Seq<TaskControlBlock>,
    current: int,
    num_app: int,
    s: int,
)
    requires
        1 <= num_app,
        0 <= current < num_app,
        tasks.len() == num_app,
        0 <= s < num_app,
        tasks[s].task_status == TaskStatus::Ready,
    ensures
        scan_ready(tasks, current, num_app, 1) is Some,
{
    if scan_ready(tasks, current, num_app, 1) is None {
        lemma_scan_ready_none_not_ready(tasks, current, num_app, 1, s);
    }
}

/// Exit monotonicity at selection: an `Exited` slot is never the
/// scheduler's choice.  Since no operation moves a slot out of `Exited`, no
/// later scan returns it either.
pub proof fn lemma_exited_never_selected(m: TaskManager, s: int)
    requires
        m.wf(),
        0 <= s < m.num_app,
        m.status(s) == TaskStatus::Exited,
    ensures
        m.next_ready_task() != Some(s),
{
    if m.next_ready_task() == Some(s) {
        lemma_scan_ready_selects_ready(m.tasks@, m.current_task as int, m.num_app as int, 1, s);
    }
}

/// With every slot `Ready`, the scan picks exactly the slot after
/// `current`.
pub proof fn lemma_scan_all_ready(tasks: Seq<TaskControlBlock>, current: int, num_app: int)
    requires
        1 <= num_app,
        0 <= current < num_app,
        tasks.len() == num_app,
        forall|i: int|
            0 <= i < num_app ==> (#[trigger] tasks[i]).task_status == TaskStatus::Ready,
    ensures
        scan_ready(tasks, current, num_app, 1) == Some((current + 1) % num_app),
{
    assert(tasks[(current + 1) % num_app].task_status == TaskStatus::Ready);
}

/// Round-robin fairness: while every slot is `Ready`, the scheduler picks
/// exactly the slot after the current one, so repeated yields walk the
/// slots cyclically in index order.
pub proof fn lemma_round_robin_step(m: TaskManager)
    requires
        m.wf(),
        forall|i: int| 0 <= i < m.num_app ==> m.status(i) == TaskStatus::Ready,
    ensures
        m.next_ready_task() == Some((m.current_task + 1) % (m.num_app as int)),
{
    assert forall|i: int| 0 <= i < m.num_app implies (#[trigger] m.tasks@[i]).task_status
        == TaskStatus::Ready by {
        assert(m.status(i) == TaskStatus::Ready);
    }
    lemma_scan_all_ready(m.tasks@, m.current_task as int, m.num_app as int);
}

/// Exhaustion: with every slot `Exited` there is nothing left to schedule,
/// and the scan reports so.
pub proof fn lemma_exhaustion(m: TaskManager)
    requires
        m.wf(),
        forall|i: int| 0 <= i < m.num_app ==> m.status(i) == TaskStatus::Exited,
    ensures
        m.next_ready_task() is None,
{
    match m.next_ready_task() {
        Some(id) => {
            lemma_scan_ready_selects_ready(
                m.tasks@,
                m.current_task as int,
                m.num_app as int,
                1,
                id,
            );
            assert(m.status(id) == TaskStatus::Exited);
        },
        None => {},
    }
}

} // verus!
