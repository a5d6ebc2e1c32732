use task_core::config::APP_SIZE_LIMIT;
use task_core::config::MAX_APP_NUM;
use task_core::loader::AppImages;
use task_core::loader::KernelStack;
use task_core::loader::UserStack;
use task_core::loader::get_base_i;
use task_core::loader::get_num_app;
use task_core::loader::init_app_cx;
use task_core::loader::load_app;
use task_core::loader::load_apps;

fn two_images() -> AppImages {
    AppImages { starts: vec![0, 3, 5], backing: vec![1, 2, 3, 4, 5] }
}

fn dirty_memory() -> Vec<u8> {
    vec![0xAAu8; MAX_APP_NUM * APP_SIZE_LIMIT]
}

#[test]
fn base_addresses_follow_slot_index() {
    assert_eq!(get_base_i(0), 0x80400000);
    assert_eq!(get_base_i(1), 0x80420000);
    assert_eq!(get_base_i(3), 0x80460000);
}

#[test]
fn stack_tops_follow_slot_index() {
    assert_eq!(KernelStack::new(0).get_sp(), 0x80502000);
    assert_eq!(KernelStack::new(3).get_sp(), 0x80508000);
    assert_eq!(UserStack::new(0).get_sp(), 0x80512000);
    assert_eq!(UserStack::new(2).get_sp(), 0x80516000);
}

#[test]
fn table_reports_its_image_count() {
    assert_eq!(get_num_app(&two_images()), 2);
    assert_eq!(get_num_app(&AppImages { starts: vec![0], backing: vec![] }), 0);
}

#[test]
fn loading_places_images_and_zero_fills() {
    let images = two_images();
    let mut mem = dirty_memory();
    load_apps(&mut mem, &images);
    // slot 0: its three bytes, then zeros up to the slot boundary
    assert_eq!(&mem[0..3], &[1, 2, 3]);
    assert!(mem[3..APP_SIZE_LIMIT].iter().all(|&b| b == 0));
    // slot 1: its two bytes, then zeros
    assert_eq!(&mem[APP_SIZE_LIMIT..APP_SIZE_LIMIT + 2], &[4, 5]);
    assert!(mem[APP_SIZE_LIMIT + 2..2 * APP_SIZE_LIMIT].iter().all(|&b| b == 0));
    // slots beyond the table are untouched
    assert!(mem[2 * APP_SIZE_LIMIT..].iter().all(|&b| b == 0xAA));
}

#[test]
fn empty_image_leaves_a_zeroed_slot() {
    let images = AppImages { starts: vec![0, 0], backing: vec![] };
    let mut mem = dirty_memory();
    load_apps(&mut mem, &images);
    assert!(mem[0..APP_SIZE_LIMIT].iter().all(|&b| b == 0));
    assert!(mem[APP_SIZE_LIMIT..].iter().all(|&b| b == 0xAA));
}

#[test]
fn full_slot_image_fills_the_slot_exactly() {
    let backing: Vec<u8> = (0..APP_SIZE_LIMIT).map(|i| (i % 251) as u8).collect();
    let images = AppImages { starts: vec![0, APP_SIZE_LIMIT], backing: backing.clone() };
    let mut mem = dirty_memory();
    load_apps(&mut mem, &images);
    assert_eq!(&mem[0..APP_SIZE_LIMIT], backing.as_slice());
}

#[test]
fn reloading_a_slot_is_idempotent() {
    let images = two_images();
    let mut mem = dirty_memory();
    load_app(&mut mem, &images, 0);
    let once = mem[0..APP_SIZE_LIMIT].to_vec();
    load_app(&mut mem, &images, 0);
    assert_eq!(&mem[0..APP_SIZE_LIMIT], once.as_slice());
}

#[test]
fn bootstrap_writes_the_context_pair() {
    let mut kstack = KernelStack::new(1);
    let ustack = UserStack::new(1);
    let addr = init_app_cx(1, &mut kstack, &ustack, 0x80201234);
    // immediately below the trap snapshot: top - 34 words - 13 words
    assert_eq!(addr, 0x80504000 - 34 * 8 - 13 * 8);
    let cx = kstack.task_cx.expect("task context was written");
    assert_eq!(cx.ra, 0x80201234);
    assert_eq!(cx.s, [0usize; 12]);
    let trap = kstack.trap_cx.expect("trap snapshot was written");
    assert_eq!(trap.sepc, 0x80420000);
    assert_eq!(trap.sp, 0x80514000);
}
