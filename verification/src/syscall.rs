//! User-side system-call marshaling.
//!
//! An application requests kernel service by placing a call number and
//! three argument words in the registers the trap convention fixes and
//! executing the trap instruction.  Issuing the trap is the platform
//! layer's; what this module verifies is the marshaling: which call number
//! and which argument words each request puts on the wire.  A buffer is
//! passed by address and length, as the trap convention itself does.

use vstd::prelude::*;

verus! {

/// Call number of the write request.
pub const SYSCALL_WRITE: usize = 64;

/// Call number of the exit request.
pub const SYSCALL_EXIT: usize = 93;

/// Call number of the cooperative yield request.
pub const SYSCALL_YIELD: usize = 124;

/// The register image of one system call: the call number and the three
/// argument words, ready for the trap instruction.
#[derive(Copy, Clone, Debug)]
pub struct SyscallRequest {
    /// Call number.
    pub id: usize,
    /// The three argument words, in register order.
    pub args: [usize; 3],
}

/// Packs a call number and its argument words.
pub fn syscall(id: usize, args: [usize; 3]) -> (r: SyscallRequest)
    ensures
        r.id == id,
        r.args@ == args@,
{
    SyscallRequest { id, args }
}

/// Write request: file descriptor, buffer address, buffer length.
pub fn sys_write(fd: usize, buffer_base: usize, buffer_len: usize) -> (r: SyscallRequest)
    ensures
        r.id == SYSCALL_WRITE,
        r.args@ == seq![fd, buffer_base, buffer_len],
{
    syscall(SYSCALL_WRITE, [fd, buffer_base, buffer_len])
}

/// Exit request carrying the exit code reinterpreted in a machine word (a
/// negative code truncates, as the register does); the two spare argument
/// words are zero.
pub fn sys_exit(exit_code: i32) -> (r: SyscallRequest)
    ensures
        r.id == SYSCALL_EXIT,
        r.args@ == seq![exit_code as usize, 0usize, 0usize],
{
    syscall(SYSCALL_EXIT, [#[verifier::truncate] (exit_code as usize), 0, 0])
}

/// Yield request: no arguments, all three words zero.
pub fn sys_yield() -> (r: SyscallRequest)
    ensures
        r.id == SYSCALL_YIELD,
        r.args@ == seq![0usize, 0usize, 0usize],
{
    syscall(SYSCALL_YIELD, [0, 0, 0])
}

} // verus!
