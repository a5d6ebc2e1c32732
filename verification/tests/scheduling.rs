use task_core::config::MAX_APP_NUM;
use task_core::loader::kernel_stack_pool;
use task_core::loader::user_stack_pool;
use task_core::manager::TaskManager;
use task_core::task::TaskStatus;

const RESTORE: usize = 0x80201234;

fn fresh_manager(num_app: usize) -> TaskManager {
    let mut kstacks = kernel_stack_pool();
    let ustacks = user_stack_pool();
    TaskManager::new(num_app, &mut kstacks, &ustacks, RESTORE)
}

#[test]
fn init_marks_every_slot_ready() {
    let mut kstacks = kernel_stack_pool();
    let ustacks = user_stack_pool();
    let m = TaskManager::new(3, &mut kstacks, &ustacks, RESTORE);
    assert_eq!(m.num_app, 3);
    assert_eq!(m.current_task, 0);
    for s in 0..3 {
        assert_eq!(m.tasks[s].task_status, TaskStatus::Ready);
        // saved context sits below the trap snapshot on slot s's kernel stack
        let kernel_stack_top = 0x80500000 + (s + 1) * 0x2000;
        assert_eq!(m.tasks[s].task_cx_ptr, kernel_stack_top - 34 * 8 - 13 * 8);
        // its return address is the resume entry point
        let cx = kstacks[s].task_cx.expect("slot was bootstrapped");
        assert_eq!(cx.ra, RESTORE);
        assert_eq!(cx.s, [0usize; 12]);
        let trap = kstacks[s].trap_cx.expect("slot was bootstrapped");
        assert_eq!(trap.sepc, 0x80400000 + s * 0x20000);
        assert_eq!(trap.sp, 0x80510000 + (s + 1) * 0x2000);
    }
}

#[test]
fn round_robin_sequence_under_pure_yields() {
    let mut m = fresh_manager(3);
    m.run_first_task();
    assert_eq!(m.current_task, 0);
    assert_eq!(m.tasks[0].task_status, TaskStatus::Running);
    let expected = [1usize, 2, 0, 1, 2, 0, 1];
    for &want in expected.iter() {
        let h = m.suspend_current_and_run_next();
        assert!(h.is_some());
        assert_eq!(m.current_task, want);
        assert_eq!(m.tasks[want].task_status, TaskStatus::Running);
    }
}

#[test]
fn yield_handles_name_the_two_saved_contexts() {
    let mut m = fresh_manager(2);
    m.run_first_task();
    let h = m.suspend_current_and_run_next().expect("a slot is ready");
    assert_eq!(h.current_task_cx_ptr2, m.tasks[0].task_cx_ptr);
    assert_eq!(h.next_task_cx_ptr2, m.tasks[1].task_cx_ptr);
}

#[test]
fn single_task_yields_to_itself() {
    let mut m = fresh_manager(1);
    m.run_first_task();
    let h = m.suspend_current_and_run_next().expect("the only slot is ready");
    assert_eq!(m.current_task, 0);
    assert_eq!(m.tasks[0].task_status, TaskStatus::Running);
    assert_eq!(h.current_task_cx_ptr2, h.next_task_cx_ptr2);
}

#[test]
fn exited_slot_is_never_selected_again() {
    let mut m = fresh_manager(3);
    m.run_first_task();
    // slot 0 exits; afterwards no scan may return it
    let h = m.exit_current_and_run_next();
    assert!(h.is_some());
    assert_eq!(m.tasks[0].task_status, TaskStatus::Exited);
    for _ in 0..6 {
        let found = m.find_next_task().expect("slots 1 and 2 stay ready");
        assert_ne!(found, 0);
        m.suspend_current_and_run_next().expect("slots 1 and 2 stay ready");
        assert_ne!(m.current_task, 0);
        assert_eq!(m.tasks[0].task_status, TaskStatus::Exited);
    }
}

#[test]
fn exhaustion_reports_fatal_and_leaves_state() {
    let mut m = fresh_manager(2);
    m.run_first_task();
    assert!(m.exit_current_and_run_next().is_some());
    // the last task exits: nothing is ready, the scheduler must report, not switch
    let current_before = m.current_task;
    let r = m.exit_current_and_run_next();
    assert!(r.is_none());
    assert_eq!(m.current_task, current_before);
    assert!(m.find_next_task().is_none());
    let r = m.run_next_task();
    assert!(r.is_none());
    for s in 0..2 {
        assert_eq!(m.tasks[s].task_status, TaskStatus::Exited);
    }
}

#[test]
fn scenario_three_apps() {
    // slot 0 yields once then exits, slot 1 exits immediately, slot 2 runs to
    // completion without yielding
    let mut m = fresh_manager(3);
    m.run_first_task();
    assert_eq!(m.current_task, 0);
    // 0 yields -> 1 runs
    assert!(m.suspend_current_and_run_next().is_some());
    assert_eq!(m.current_task, 1);
    // 1 exits -> search from 1 finds 2 first (0 is also ready)
    assert!(m.exit_current_and_run_next().is_some());
    assert_eq!(m.current_task, 2);
    // 2 exits -> 0 resumes
    assert!(m.exit_current_and_run_next().is_some());
    assert_eq!(m.current_task, 0);
    // 0 exits -> all exited: fatal halt
    assert!(m.exit_current_and_run_next().is_none());
    for s in 0..3 {
        assert_eq!(m.tasks[s].task_status, TaskStatus::Exited);
    }
}

#[test]
fn pool_capacity_matches_build_limit() {
    let kstacks = kernel_stack_pool();
    let ustacks = user_stack_pool();
    assert_eq!(kstacks.len(), MAX_APP_NUM);
    assert_eq!(ustacks.len(), MAX_APP_NUM);
    for s in 0..MAX_APP_NUM {
        assert_eq!(kstacks[s].slot, s);
        assert_eq!(ustacks[s].slot, s);
        assert!(kstacks[s].task_cx.is_none());
    }
}
