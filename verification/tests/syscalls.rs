use task_core::syscall::SYSCALL_EXIT;
use task_core::syscall::SYSCALL_WRITE;
use task_core::syscall::SYSCALL_YIELD;
use task_core::syscall::sys_exit;
use task_core::syscall::sys_write;
use task_core::syscall::sys_yield;
use task_core::syscall::syscall;

#[test]
fn write_request_carries_fd_buffer_and_length() {
    let r = sys_write(1, 0x80421000, 13);
    assert_eq!(r.id, SYSCALL_WRITE);
    assert_eq!(r.id, 64);
    assert_eq!(r.args, [1, 0x80421000, 13]);
}

#[test]
fn exit_request_carries_the_code() {
    let r = sys_exit(0);
    assert_eq!(r.id, SYSCALL_EXIT);
    assert_eq!(r.id, 93);
    assert_eq!(r.args, [0, 0, 0]);
    let r = sys_exit(7);
    assert_eq!(r.args, [7, 0, 0]);
}

#[test]
fn negative_exit_code_wraps_into_the_register_word() {
    let r = sys_exit(-1);
    assert_eq!(r.args[0], usize::MAX);
}

#[test]
fn yield_request_has_no_arguments() {
    let r = sys_yield();
    assert_eq!(r.id, SYSCALL_YIELD);
    assert_eq!(r.id, 124);
    assert_eq!(r.args, [0, 0, 0]);
}

#[test]
fn raw_syscall_packs_id_and_arguments() {
    let r = syscall(200, [4, 5, 6]);
    assert_eq!(r.id, 200);
    assert_eq!(r.args, [4, 5, 6]);
}
