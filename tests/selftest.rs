use libnanvix::kernel::{Kernel, USER_FRAME_COUNT, VMEM_COUNT};
use libnanvix::selftest::{
    alloc_free_frame, create_remove_vmem, double_free_frame, free_invalid_frame, free_null_frame,
    issue_void0_kcall, issue_void1_kcall, issue_void2_kcall, issue_void3_kcall, issue_void4_kcall,
    map_unmap_vmem, remove_null_vmem, report_line, test_kernel_calls,
};
use libnanvix::sys::{fralloc, vmcreate};

const NAMES: [&str; 12] = [
    "issue_void0_kcall",
    "issue_void1_kcall",
    "issue_void2_kcall",
    "issue_void3_kcall",
    "issue_void4_kcall",
    "alloc_free_frame",
    "free_null_frame",
    "free_invalid_frame",
    "double_free_frame",
    "create_remove_vmem",
    "remove_null_vmem",
    "map_unmap_vmem",
];

#[test]
fn all_checks_pass_on_fresh_kernel() {
    let mut k = Kernel::new();
    let lines = test_kernel_calls(&mut k);
    assert_eq!(lines.len(), 12);
    for (line, name) in lines.iter().zip(NAMES.iter()) {
        assert_eq!(line, &format!("[init] passed {}\n", name));
    }
}

#[test]
fn checks_fail_when_frames_exhausted() {
    let mut k = Kernel::new();
    for _ in 0..USER_FRAME_COUNT {
        fralloc(&mut k);
    }
    let lines = test_kernel_calls(&mut k);
    let failed: Vec<&str> = NAMES
        .iter()
        .zip(lines.iter())
        .filter(|(_, l)| l.contains("FAILED"))
        .map(|(n, _)| *n)
        .collect();
    assert_eq!(failed, vec!["alloc_free_frame", "double_free_frame", "map_unmap_vmem"]);
    assert_eq!(lines[5], "[init] FAILED alloc_free_frame\n");
}

#[test]
fn checks_fail_when_spaces_exhausted() {
    let mut k = Kernel::new();
    for _ in 0..VMEM_COUNT {
        vmcreate(&mut k);
    }
    assert!(!create_remove_vmem(&mut k));
    assert!(!map_unmap_vmem(&mut k));
    assert!(alloc_free_frame(&mut k));
}

#[test]
fn individual_checks() {
    let mut k = Kernel::new();
    assert!(issue_void0_kcall(&mut k));
    assert!(issue_void1_kcall(&mut k));
    assert!(issue_void2_kcall(&mut k));
    assert!(issue_void3_kcall(&mut k));
    assert!(issue_void4_kcall(&mut k));
    assert!(alloc_free_frame(&mut k));
    assert!(free_null_frame(&mut k));
    assert!(free_invalid_frame(&mut k));
    assert!(double_free_frame(&mut k));
    assert!(create_remove_vmem(&mut k));
    assert!(remove_null_vmem(&mut k));
    assert!(map_unmap_vmem(&mut k));
    // The frame used by the mapping check stays allocated.
    assert_eq!(fralloc(&mut k), libnanvix::kernel::USER_FRAME_BASE + 1);
}

#[test]
fn report_lines() {
    assert_eq!(report_line("x", true), "[init] passed x\n");
    assert_eq!(report_line("y", false), "[init] FAILED y\n");
}
