//! Stack pool, image loader and context bootstrapper.
//!
//! The application area is modeled as a byte arena covering
//! `[APP_BASE_ADDRESS, APP_BASE_ADDRESS + MAX_APP_NUM * APP_SIZE_LIMIT)`,
//! indexed from its base.  Loading an application zero-fills its whole slot
//! and then copies the image bytes in, so the slot's final contents are a
//! function of the embedded image table alone.  After every slot is placed
//! the platform layer must force an instruction-cache fence before any task
//! runs, since code was written through the data path; that fence has no
//! effect on the bytes and stays outside this model.
//!
//! Each task slot owns one kernel stack and one user stack, both fixed-size
//! regions whose addresses follow from the slot index (see [`crate::config`]).
//! A kernel stack doubles as the backing store for the task's initial
//! trap-snapshot/task-context pair, written once by [`init_app_cx`].

use vstd::prelude::*;

use crate::config::APP_BASE_ADDRESS;
use crate::config::APP_SIZE_LIMIT;
use crate::config::KERNEL_STACK_BASE;
use crate::config::KERNEL_STACK_SIZE;
use crate::config::MAX_APP_NUM;
use crate::config::TASK_CONTEXT_BYTES;
use crate::config::TRAP_CONTEXT_BYTES;
use crate::config::USER_STACK_BASE;
use crate::config::USER_STACK_SIZE;
use crate::config::app_base;
use crate::config::kernel_stack_top;
use crate::config::task_cx_addr;
use crate::config::user_stack_top;
use crate::context::TaskContext;
use crate::context::TrapContext;

verus! {

/// Kernel stack of one task slot.
///
/// The region itself is a fixed address range; the two `Option` fields model
/// the context pair constructed in place at the fixed offsets below the
/// stack top ([`crate::config::trap_cx_addr`] and
/// [`crate::config::task_cx_addr`]).  `None` means the bytes there have
/// never been written.
pub struct KernelStack {
    /// The slot this stack belongs to.
    pub slot: usize,
    /// Trap snapshot written just below the stack top, if any.
    pub trap_cx: Option<TrapContext>,
    /// Task context written immediately below the trap snapshot, if any.
    pub task_cx: Option<TaskContext>,
}

impl KernelStack {
    /// A fresh, never-written kernel stack for `slot`.
    pub fn new(slot: usize) -> (st: Self)
        requires
            slot < MAX_APP_NUM,
        ensures
            st.slot == slot,
            st.trap_cx is None,
            st.task_cx is None,
    {
        Self { slot, trap_cx: None, task_cx: None }
    }

    /// Top-of-stack address of this kernel stack.
    pub fn get_sp(&self) -> (sp: usize)
        requires
            self.slot < MAX_APP_NUM,
        ensures
            sp == kernel_stack_top(self.slot as int),
    {
        KERNEL_STACK_BASE + self.slot * KERNEL_STACK_SIZE + KERNEL_STACK_SIZE
    }

    /// Writes the trap snapshot at `get_sp() - TRAP_CONTEXT_BYTES` and the
    /// task context immediately below it, returning the task context's
    /// address as the stable handle the task table records.
    pub fn push_context(&mut self, trap_cx: TrapContext, task_cx: TaskContext) -> (addr: usize)
        requires
            old(self).slot < MAX_APP_NUM,
        ensures
            final(self).slot == old(self).slot,
            final(self).trap_cx == Some(trap_cx),
            final(self).task_cx == Some(task_cx),
            addr == task_cx_addr(old(self).slot as int),
    {
        let trap_cx_ptr: usize = self.get_sp() - TRAP_CONTEXT_BYTES;
        self.trap_cx = Some(trap_cx);
        let task_cx_ptr: usize = trap_cx_ptr - TASK_CONTEXT_BYTES;
        self.task_cx = Some(task_cx);
        task_cx_ptr
    }
}

/// User stack of one task slot: a fixed region; only its top address is ever
/// read by this core.
pub struct UserStack {
    /// The slot this stack belongs to.
    pub slot: usize,
}

impl UserStack {
    /// A user stack for `slot`.
    pub fn new(slot: usize) -> (st: Self)
        requires
            slot < MAX_APP_NUM,
        ensures
            st.slot == slot,
    {
        Self { slot }
    }

    /// Top-of-stack address of this user stack.
    pub fn get_sp(&self) -> (sp: usize)
        requires
            self.slot < MAX_APP_NUM,
        ensures
            sp == user_stack_top(self.slot as int),
    {
        USER_STACK_BASE + self.slot * USER_STACK_SIZE + USER_STACK_SIZE
    }
}

/// The full kernel-stack pool, one stack per slot, in slot order.
pub fn kernel_stack_pool() -> (pool: Vec<KernelStack>)
    ensures
        pool@.len() == MAX_APP_NUM,
        forall|i: int|
            0 <= i < MAX_APP_NUM ==> {
                &&& (#[trigger] pool@[i]).slot == i
                &&& pool@[i].trap_cx is None
                &&& pool@[i].task_cx is None
            },
{
    let mut pool: Vec<KernelStack> = Vec::new();
    let mut i: usize = 0;
    while i < MAX_APP_NUM
        invariant
            i <= MAX_APP_NUM,
            pool@.len() == i,
            forall|k: int|
                0 <= k < i ==> {
                    &&& (#[trigger] pool@[k]).slot == k
                    &&& pool@[k].trap_cx is None
                    &&& pool@[k].task_cx is None
                },
        decreases MAX_APP_NUM - i,
    {
        pool.push(KernelStack::new(i));
        i += 1;
    }
    pool
}

/// The full user-stack pool, one stack per slot, in slot order.
pub fn user_stack_pool() -> (pool: Vec<UserStack>)
    ensures
        pool@.len() == MAX_APP_NUM,
        forall|i: int| 0 <= i < MAX_APP_NUM ==> (#[trigger] pool@[i]).slot == i,
{
    let mut pool: Vec<UserStack> = Vec::new();
    let mut i: usize = 0;
    while i < MAX_APP_NUM
        invariant
            i <= MAX_APP_NUM,
            pool@.len() == i,
            forall|k: int| 0 <= k < i ==> (#[trigger] pool@[k]).slot == k,
        decreases MAX_APP_NUM - i,
    {
        pool.push(UserStack::new(i));
        i += 1;
    }
    pool
}

/// Load base address of the application in slot `app_id`.
pub fn get_base_i(app_id: usize) -> (base: usize)
    requires
        app_id < MAX_APP_NUM,
    ensures
        base == app_base(app_id as int),
{
    APP_BASE_ADDRESS + app_id * APP_SIZE_LIMIT
}

/// Build-time table of embedded application images: `starts` holds
/// `num_app + 1` offsets into `backing`; image `i` is the byte range
/// `backing[starts[i] .. starts[i + 1]]`.
pub struct AppImages {
    /// Image boundaries, in ascending order.
    pub starts: Vec<usize>,
    /// The backing bytes all images are embedded in.
    pub backing: Vec<u8>,
}

impl AppImages {
    /// Number of applications the table describes.
    pub open spec fn num_app_spec(self) -> int {
        self.starts@.len() - 1
    }

    /// Byte length of image `i`.
    pub open spec fn app_len(self, i: int) -> int {
        self.starts@[i + 1] - self.starts@[i]
    }

    /// A well-formed table: at least the closing offset, at most
    /// [`MAX_APP_NUM`] images, offsets ascending and inside the backing,
    /// and no image larger than its slot.
    pub open spec fn wf(self) -> bool {
        &&& 1 <= self.starts@.len() <= MAX_APP_NUM + 1
        &&& forall|i: int|
            0 <= i < self.num_app_spec() ==> #[trigger] self.starts@[i] <= self.starts@[i + 1]
        &&& forall|i: int|
            0 <= i < self.starts@.len() ==> #[trigger] self.starts@[i] <= self.backing@.len()
        &&& forall|i: int| 0 <= i < self.num_app_spec() ==> #[trigger] self.app_len(i) <= APP_SIZE_LIMIT
    }
}

/// Reads the number of applications out of the embedded table.
pub fn get_num_app(images: &AppImages) -> (n: usize)
    requires
        images.wf(),
    ensures
        n == images.num_app_spec(),
{
    images.starts.len() - 1
}

/// The byte that loading leaves at offset `j` of slot `slot`: the image byte
/// where the image reaches, zero beyond it.
pub open spec fn loaded_byte(images: AppImages, slot: int, j: int) -> u8 {
    if j < images.app_len(slot) {
        images.backing@[images.starts@[slot] + j]
    } else {
        0u8
    }
}

/// Offset of slot `slot` inside the application area.
pub open spec fn app_off(slot: int) -> int {
    slot * APP_SIZE_LIMIT
}

/// Slot `slot` of the application area holds exactly its image followed by
/// zero fill.
pub open spec fn slot_loaded(mem: Seq<u8>, images: AppImages, slot: int) -> bool {
    forall|a: int|
        app_off(slot) <= a < app_off(slot) + APP_SIZE_LIMIT ==> #[trigger] mem[a] == loaded_byte(
            images,
            slot,
            a - app_off(slot),
        )
}

/// Zero-fills the whole slot of `app_id`, then copies its image bytes in.
/// No byte outside the slot is touched.
pub fn load_app(mem: &mut Vec<u8>, images: &AppImages, app_id: usize)
    requires
        images.wf(),
        app_id < images.num_app_spec(),
        old(mem)@.len() == MAX_APP_NUM * APP_SIZE_LIMIT,
    ensures
        final(mem)@.len() == old(mem)@.len(),
        slot_loaded(final(mem)@, *images, app_id as int),
        forall|a: int|
            0 <= a < final(mem)@.len() && !(app_off(app_id as int) <= a < app_off(app_id as int)
                + APP_SIZE_LIMIT) ==> final(mem)@[a] == old(mem)@[a],
{
    let base_i: usize = get_base_i(app_id);
    let off: usize = base_i - APP_BASE_ADDRESS;
    // clear region
    let mut j: usize = 0;
    while j < APP_SIZE_LIMIT
        invariant
            j <= APP_SIZE_LIMIT,
            app_id < MAX_APP_NUM,
            off == app_off(app_id as int),
            mem@.len() == MAX_APP_NUM * APP_SIZE_LIMIT,
            forall|a: int| off <= a < off + j ==> mem@[a] == 0,
            forall|a: int| 0 <= a < mem@.len() && !(off <= a < off + j) ==> mem@[a] == old(mem)@[a],
        decreases APP_SIZE_LIMIT - j,
    {
        mem[off + j] = 0;
        j += 1;
    }
    // copy the image bytes over the cleared slot
    let start: usize = images.starts[app_id];
    let end: usize = images.starts[app_id + 1];
    let len: usize = end - start;
    let mut j: usize = 0;
    while j < len
        invariant
            j <= len,
            app_id < MAX_APP_NUM,
            images.wf(),
            app_id < images.num_app_spec(),
            off == app_off(app_id as int),
            start == images.starts@[app_id as int],
            len == images.app_len(app_id as int),
            mem@.len() == MAX_APP_NUM * APP_SIZE_LIMIT,
            forall|a: int|
                off <= a < off + j ==> mem@[a] == images.backing@[start + (a - off)],
            forall|a: int| off + j <= a < off + APP_SIZE_LIMIT ==> mem@[a] == 0,
            forall|a: int| 0 <= a < mem@.len() && !(off <= a < off + APP_SIZE_LIMIT) ==> mem@[a]
                == old(mem)@[a],
        decreases len - j,
    {
        let b: u8 = images.backing[start + j];
        mem[off + j] = b;
        j += 1;
    }
}

/// Places every application image at its fixed slot, in ascending slot
/// order, zero-filling each slot first.  Must run exactly once at boot,
/// before any task is scheduled; the caller then issues the
/// instruction-cache fence.
pub fn load_apps(mem: &mut Vec<u8>, images: &AppImages)
    requires
        images.wf(),
        old(mem)@.len() == MAX_APP_NUM * APP_SIZE_LIMIT,
    ensures
        final(mem)@.len() == old(mem)@.len(),
        forall|i: int| 0 <= i < images.num_app_spec() ==> slot_loaded(final(mem)@, *images, i),
        forall|a: int|
            images.num_app_spec() * APP_SIZE_LIMIT <= a < final(mem)@.len() ==> final(mem)@[a]
                == old(mem)@[a],
{
    let num_app: usize = get_num_app(images);
    let mut i: usize = 0;
    while i < num_app
        invariant
            i <= num_app,
            num_app == images.num_app_spec(),
            images.wf(),
            mem@.len() == MAX_APP_NUM * APP_SIZE_LIMIT,
            old(mem)@.len() == MAX_APP_NUM * APP_SIZE_LIMIT,
            forall|k: int| 0 <= k < i ==> slot_loaded(mem@, *images, k),
            forall|a: int| i * APP_SIZE_LIMIT <= a < mem@.len() ==> mem@[a] == old(mem)@[a],
        decreases num_app - i,
    {
        let ghost prev = mem@;
        load_app(mem, images, i);
        proof {
            // placing slot i leaves every earlier slot's bytes untouched
            assert forall|k: int| 0 <= k < i + 1 implies slot_loaded(
                mem@,
                *images,
                k,
            ) by {
                if k < i {
                    assert(slot_loaded(prev, *images, k));
                    assert forall|a: int|
                        app_off(k) <= a < app_off(k) + APP_SIZE_LIMIT implies #[trigger] mem@[a]
                        == loaded_byte(*images, k, a - app_off(k)) by {
                        assert(app_off(k) + APP_SIZE_LIMIT <= app_off(i as int));
                        assert(mem@[a] == prev[a]);
                    }
                }
            }
        }
        i += 1;
    }
}

/// Bootstraps the initial resumable state of `app_id` on its kernel stack:
/// a trap snapshot entering the application at its load base with the stack
/// pointer at its user-stack top, and below it a task context returning into
/// the resume entry point.  Returns the task context's address for the task
/// table to record.
pub fn init_app_cx(
    app_id: usize,
    kernel_stack: &mut KernelStack,
    user_stack: &UserStack,
    restore_addr: usize,
) -> (addr: usize)
    requires
        app_id < MAX_APP_NUM,
        old(kernel_stack).slot == app_id,
        user_stack.slot == app_id,
    ensures
        final(kernel_stack).slot == app_id,
        addr == task_cx_addr(app_id as int),
        match final(kernel_stack).trap_cx {
            Some(t) => t.sepc == app_base(app_id as int) && t.sp == user_stack_top(app_id as int),
            None => false,
        },
        match final(kernel_stack).task_cx {
            Some(c) => c.ra == restore_addr && forall|k: int| 0 <= k < 12 ==> c.s@[k] == 0,
            None => false,
        },
{
    kernel_stack.push_context(
        TrapContext::app_init_context(get_base_i(app_id), user_stack.get_sp()),
        TaskContext::goto_restore(restore_addr),
    )
}

/// Loading is idempotent within a boot: since a loaded slot's bytes are a
/// function of the image table alone, re-running the zero-fill-then-copy
/// sequence for a slot yields byte-identical destination contents to a
/// single run.
pub proof fn lemma_loader_idempotent(mem1: Seq<u8>, mem2: Seq<u8>, images: AppImages, slot: int)
    requires
        images.wf(),
        0 <= slot < images.num_app_spec(),
        mem1.len() == MAX_APP_NUM * APP_SIZE_LIMIT,
        mem2.len() == MAX_APP_NUM * APP_SIZE_LIMIT,
        slot_loaded(mem1, images, slot),
        slot_loaded(mem2, images, slot),
    ensures
        mem1.subrange(app_off(slot), app_off(slot) + APP_SIZE_LIMIT) == mem2.subrange(
            app_off(slot),
            app_off(slot) + APP_SIZE_LIMIT,
        ),
{
    let lo = app_off(slot);
    let s1 = mem1.subrange(lo, lo + APP_SIZE_LIMIT);
    let s2 = mem2.subrange(lo, lo + APP_SIZE_LIMIT);
    assert(0 <= lo && lo + APP_SIZE_LIMIT <= mem1.len());
    assert forall|j: int| 0 <= j < APP_SIZE_LIMIT implies #[trigger] s1[j] == s2[j] by {
        assert(mem1[lo + j] == loaded_byte(images, slot, j));
        assert(mem2[lo + j] == loaded_byte(images, slot, j));
    }
    assert(s1 =~= s2);
}

} // verus!
