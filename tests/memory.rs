use libnanvix::kcall::{kcall1, Kcall, KcallNumber};
use libnanvix::kernel::{
    Kernel, EINVAL, ENOSYS, NULL_FRAME, NULL_VMEM, PAGE_SIZE, USER_BASE_ADDRESS, USER_FRAME_BASE,
    USER_FRAME_COUNT, VMEM_COUNT,
};
use libnanvix::sys::{
    fralloc, frfree, shutdown, vmcreate, vmmap, vmremove, vmunmap, void0, void1, void2, void3,
    void4,
};

#[test]
fn void_calls_sum_arguments() {
    let mut k = Kernel::new();
    assert_eq!(void0(&mut k), 0);
    assert_eq!(void1(&mut k, 1), 1);
    assert_eq!(void2(&mut k, 1, 2), 3);
    assert_eq!(void3(&mut k, 1, 2, 3), 6);
    assert_eq!(void4(&mut k, 1, 2, 3, 4), 10);
    assert_eq!(void2(&mut k, u32::MAX, 2), 1);
}

#[test]
fn frames_allocated_lowest_first() {
    let mut k = Kernel::new();
    assert_eq!(fralloc(&mut k), USER_FRAME_BASE);
    assert_eq!(fralloc(&mut k), USER_FRAME_BASE + 1);
    assert_eq!(frfree(&mut k, USER_FRAME_BASE), 0);
    assert_eq!(fralloc(&mut k), USER_FRAME_BASE);
    assert_eq!(USER_FRAME_BASE * PAGE_SIZE, USER_BASE_ADDRESS);
}

#[test]
fn frames_run_out() {
    let mut k = Kernel::new();
    for _ in 0..USER_FRAME_COUNT {
        assert_ne!(fralloc(&mut k), NULL_FRAME);
    }
    assert_eq!(fralloc(&mut k), NULL_FRAME);
}

#[test]
fn double_release_rejected() {
    let mut k = Kernel::new();
    let f = fralloc(&mut k);
    assert_eq!(frfree(&mut k, f), 0);
    assert_eq!(frfree(&mut k, f), EINVAL as u32);
}

#[test]
fn sentinels_rejected() {
    let mut k = Kernel::new();
    assert_eq!(frfree(&mut k, NULL_FRAME), EINVAL as u32);
    assert_eq!(frfree(&mut k, 0), EINVAL as u32);
    assert_eq!(frfree(&mut k, USER_FRAME_BASE - 1), EINVAL as u32);
    assert_eq!(vmremove(&mut k, NULL_VMEM), EINVAL as u32);
    let f = fralloc(&mut k);
    assert_eq!(vmmap(&mut k, NULL_VMEM, USER_BASE_ADDRESS, f), EINVAL as u32);
    assert_eq!(vmunmap(&mut k, NULL_VMEM, USER_BASE_ADDRESS), EINVAL as u32);
    let v = vmcreate(&mut k);
    assert_eq!(vmmap(&mut k, v, USER_BASE_ADDRESS, NULL_FRAME), EINVAL as u32);
}

#[test]
fn map_unmap_round_trip() {
    let mut k = Kernel::new();
    let v = vmcreate(&mut k);
    assert_eq!(v, 0);
    let f = fralloc(&mut k);
    assert_eq!(vmmap(&mut k, v, USER_BASE_ADDRESS, f), 0);
    assert_eq!(vmmap(&mut k, v, USER_BASE_ADDRESS, f), (-16i32) as u32);
    assert_eq!(vmmap(&mut k, v, USER_BASE_ADDRESS + 1, f), EINVAL as u32);
    assert_eq!(vmremove(&mut k, v), (-16i32) as u32);
    assert_eq!(vmunmap(&mut k, v, USER_BASE_ADDRESS), f);
    assert_eq!(vmunmap(&mut k, v, USER_BASE_ADDRESS), EINVAL as u32);
    assert_eq!(vmremove(&mut k, v), 0);
    assert_eq!(vmremove(&mut k, v), EINVAL as u32);
}

#[test]
fn spaces_run_out() {
    let mut k = Kernel::new();
    for i in 0..VMEM_COUNT {
        assert_eq!(vmcreate(&mut k), i);
    }
    assert_eq!(vmcreate(&mut k), NULL_VMEM);
}

#[test]
fn dispatcher_rejects_unknown_and_malformed_calls() {
    let mut k = Kernel::new();
    let mut buf = Vec::new();
    let unknown = Kcall { number: 999, args: vec![] };
    assert_eq!(k.dispatch(&unknown, &mut buf), ENOSYS as u32);
    let short = Kcall { number: KcallNumber::MbAssign.number(), args: vec![1] };
    assert_eq!(k.dispatch(&short, &mut buf), EINVAL as u32);
    let ok = kcall1(KcallNumber::Void1, 5);
    assert_eq!(k.dispatch(&ok, &mut buf), 5);
}

#[test]
fn shutdown_consumes_kernel() {
    let k = Kernel::new();
    shutdown(k);
}
