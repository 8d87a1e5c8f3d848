//! The kernel-call self-test that the init server runs: each check issues
//! calls and tells whether the kernel answered as it must.

use vstd::prelude::*;
use crate::kernel::{
    lemma_register_cast, void_sum, Kernel, KernelState, EINVAL, KERNEL_BASE_ADDRESS, NULL_FRAME,
    NULL_VMEM, PAGE_SIZE, USER_BASE_ADDRESS,
};
use crate::logging::{log_prefix, Logger};
use crate::sys::{fralloc, frfree, vmcreate, vmmap, vmremove, vmunmap, void0, void1, void2, void3, void4};

verus! {

proof fn lemma_small_sums()
    ensures
        void_sum(seq![]) == 0,
        void_sum(seq![1u32]) == 1,
        void_sum(seq![1u32, 2]) == 3,
        void_sum(seq![1u32, 2, 3]) == 6,
        void_sum(seq![1u32, 2, 3, 4]) == 10,
{
    assert(void_sum(seq![]) == 0);
    assert(seq![1u32].drop_last() =~= seq![]);
    assert(void_sum(seq![1u32]) == 1);
    assert(seq![1u32, 2].drop_last() =~= seq![1u32]);
    assert(void_sum(seq![1u32, 2]) == 3);
    assert(seq![1u32, 2, 3].drop_last() =~= seq![1u32, 2]);
    assert(void_sum(seq![1u32, 2, 3]) == 6);
    assert(seq![1u32, 2, 3, 4].drop_last() =~= seq![1u32, 2, 3]);
}

/// Issues a void0 kernel call.
pub fn issue_void0_kcall(kernel: &mut Kernel) -> (r: bool)
    requires
        old(kernel)@.wf(),
    ensures
        final(kernel)@ == old(kernel)@,
        r,
{
    proof { lemma_small_sums(); }
    void0(kernel) == 0
}

/// Issues a void1 kernel call.
pub fn issue_void1_kcall(kernel: &mut Kernel) -> (r: bool)
    requires
        old(kernel)@.wf(),
    ensures
        final(kernel)@ == old(kernel)@,
        r,
{
    proof { lemma_small_sums(); }
    void1(kernel, 1) == 1
}

/// Issues a void2 kernel call.
pub fn issue_void2_kcall(kernel: &mut Kernel) -> (r: bool)
    requires
        old(kernel)@.wf(),
    ensures
        final(kernel)@ == old(kernel)@,
        r,
{
    proof { lemma_small_sums(); }
    void2(kernel, 1, 2) == 3
}

/// Issues a void3 kernel call.
pub fn issue_void3_kcall(kernel: &mut Kernel) -> (r: bool)
    requires
        old(kernel)@.wf(),
    ensures
        final(kernel)@ == old(kernel)@,
        r,
{
    proof { lemma_small_sums(); }
    void3(kernel, 1, 2, 3) == 6
}

/// Issues a void4 kernel call.
pub fn issue_void4_kcall(kernel: &mut Kernel) -> (r: bool)
    requires
        old(kernel)@.wf(),
    ensures
        final(kernel)@ == old(kernel)@,
        r,
{
    proof { lemma_small_sums(); }
    void4(kernel, 1, 2, 3, 4) == 10
}

/// Attempts to allocate and release a page frame. It passes exactly when a
/// frame is free, and leaves the tables as they were.
pub fn alloc_free_frame(kernel: &mut Kernel) -> (r: bool)
    requires
        old(kernel)@.wf(),
    ensures
        final(kernel)@ == old(kernel)@,
        r == old(kernel)@.has_free_frame(),
{
    let frame: u32 = fralloc(kernel);
    if frame == NULL_FRAME {
        return false;
    }
    if frame * PAGE_SIZE < USER_BASE_ADDRESS {
        return false;
    }
    let result: u32 = frfree(kernel, frame);
    if result != 0 {
        return false;
    }
    proof {
        assert(kernel@.frames =~= old(kernel)@.frames);
    }
    true
}

/// Attempts to release the null page frame, which must fail.
pub fn free_null_frame(kernel: &mut Kernel) -> (r: bool)
    requires
        old(kernel)@.wf(),
    ensures
        final(kernel)@ == old(kernel)@,
        r,
{
    let result: u32 = frfree(kernel, NULL_FRAME);
    proof { lemma_register_cast(EINVAL); }
    if result == 0 {
        return false;
    }
    true
}

/// Attempts to release every frame below user memory, which must all fail.
pub fn free_invalid_frame(kernel: &mut Kernel) -> (r: bool)
    requires
        old(kernel)@.wf(),
    ensures
        final(kernel)@ == old(kernel)@,
        r,
{
    proof { lemma_register_cast(EINVAL); }
    let mut frame_addr: u32 = KERNEL_BASE_ADDRESS;
    while frame_addr < USER_BASE_ADDRESS
        invariant
            kernel@ == old(kernel)@,
            old(kernel)@.wf(),
            (EINVAL as u32) != 0,
        decreases USER_BASE_ADDRESS - frame_addr,
    {
        let result: u32 = frfree(kernel, frame_addr / PAGE_SIZE);
        if result == 0 {
            return false;
        }
        frame_addr = frame_addr + 1;
    }
    true
}

/// Attempts to release a page frame twice. It passes exactly when a frame
/// is free, and leaves the tables as they were.
pub fn double_free_frame(kernel: &mut Kernel) -> (r: bool)
    requires
        old(kernel)@.wf(),
    ensures
        final(kernel)@ == old(kernel)@,
        r == old(kernel)@.has_free_frame(),
{
    proof { lemma_register_cast(EINVAL); }
    let frame: u32 = fralloc(kernel);
    if frame == NULL_FRAME {
        return false;
    }
    let result: u32 = frfree(kernel, frame);
    if result != 0 {
        return false;
    }
    proof {
        assert(kernel@.frames =~= old(kernel)@.frames);
    }
    let result: u32 = frfree(kernel, frame);
    if result == 0 {
        return false;
    }
    true
}

/// Attempts to create and remove a virtual-memory space. It passes exactly
/// when a space is free, and leaves the tables as they were.
pub fn create_remove_vmem(kernel: &mut Kernel) -> (r: bool)
    requires
        old(kernel)@.wf(),
    ensures
        final(kernel)@ == old(kernel)@,
        r == old(kernel)@.has_free_space(),
{
    let vmem: u32 = vmcreate(kernel);
    if vmem == NULL_VMEM {
        return false;
    }
    proof {
        let s = old(kernel)@;
        if kernel@.space_has_mappings(vmem as int) {
            let i = choose|i: int| 0 <= i < kernel@.mappings.len() && #[trigger] kernel@.mappings[i].space == vmem as int;
            assert(s.space_live(s.mappings[i].space as int));
        }
    }
    let result: u32 = vmremove(kernel, vmem);
    if result != 0 {
        return false;
    }
    proof {
        assert(kernel@.spaces =~= old(kernel)@.spaces);
    }
    true
}

/// Attempts to remove the null virtual-memory space, which must fail.
pub fn remove_null_vmem(kernel: &mut Kernel) -> (r: bool)
    requires
        old(kernel)@.wf(),
    ensures
        final(kernel)@ == old(kernel)@,
        r,
{
    let result: u32 = vmremove(kernel, NULL_VMEM);
    proof { lemma_register_cast(EINVAL); }
    if result == 0 {
        return false;
    }
    true
}

/// Attempts to map a page frame into a fresh virtual-memory space, unmap it
/// and remove the space. It passes exactly when a space and a frame are
/// free. The frame stays allocated; the mailboxes are untouched.
pub fn map_unmap_vmem(kernel: &mut Kernel) -> (r: bool)
    requires
        old(kernel)@.wf(),
    ensures
        final(kernel)@.wf(),
        final(kernel)@.slots == old(kernel)@.slots,
        final(kernel)@.queues == old(kernel)@.queues,
        r == (old(kernel)@.has_free_space() && old(kernel)@.has_free_frame()),
        r ==> final(kernel)@.spaces == old(kernel)@.spaces && final(kernel)@.mappings == old(kernel)@.mappings,
{
    let vmem: u32 = vmcreate(kernel);
    if vmem == NULL_VMEM {
        return false;
    }
    let ghost s1 = kernel@;
    proof {
        assert(s1.has_free_frame() == old(kernel)@.has_free_frame());
    }
    let frame: u32 = fralloc(kernel);
    if frame == NULL_FRAME {
        return false;
    }
    let ghost s2 = kernel@;
    proof {
        let s = old(kernel)@;
        assert forall|j: int| 0 <= j < s2.mappings.len() implies (#[trigger] s2.mappings[j]).space != vmem by {
            assert(s.space_live(s.mappings[j].space as int));
        }
        assert(!s2.is_mapped(vmem as int, USER_BASE_ADDRESS as int));
        assert(USER_BASE_ADDRESS as int % PAGE_SIZE as int == 0);
    }
    let result: u32 = vmmap(kernel, vmem, USER_BASE_ADDRESS, frame);
    if result != 0 {
        return false;
    }
    let ghost s3 = kernel@;
    let result: u32 = vmunmap(kernel, vmem, USER_BASE_ADDRESS);
    proof {
        let n = s2.mappings.len() as int;
        assert(s3.mappings[n].space == vmem && s3.mappings[n].vaddr == USER_BASE_ADDRESS);
        assert(s3.is_mapped(vmem as int, USER_BASE_ADDRESS as int));
        let i = choose|i: int|
            0 <= i < s3.mappings.len() && #[trigger] s3.mappings[i].space == vmem as int
                && s3.mappings[i].vaddr == USER_BASE_ADDRESS as int
                && (forall|j: int| 0 <= j < i ==> !(#[trigger] s3.mappings[j].space == vmem as int
                    && s3.mappings[j].vaddr == USER_BASE_ADDRESS as int))
                && result == s3.mappings[i].frame
                && kernel@ == KernelState { mappings: s3.mappings.remove(i), ..s3 };
        if i < n {
            assert(s3.mappings[i] == s2.mappings[i]);
        }
        assert(i == n);
        assert(kernel@.mappings =~= s2.mappings);
    }
    if result != frame {
        return false;
    }
    proof {
        let s = old(kernel)@;
        if kernel@.space_has_mappings(vmem as int) {
            let i = choose|i: int| 0 <= i < kernel@.mappings.len() && #[trigger] kernel@.mappings[i].space == vmem as int;
            assert(s.space_live(s.mappings[i].space as int));
        }
    }
    let result: u32 = vmremove(kernel, vmem);
    if result != 0 {
        return false;
    }
    proof {
        assert(kernel@.spaces =~= old(kernel)@.spaces);
    }
    true
}

/// The line that reports one check: `[init] passed name` or
/// `[init] FAILED name`, with its terminator.
pub open spec fn report(name: Seq<char>, passed: bool) -> Seq<char> {
    log_prefix("init"@) + (if passed { "passed"@ } else { "FAILED"@ }) + " "@ + name + seq!['\n']
}

/// Names of the checks, in the order they run.
pub open spec fn check_names() -> Seq<Seq<char>> {
    seq![
        "issue_void0_kcall"@, "issue_void1_kcall"@, "issue_void2_kcall"@, "issue_void3_kcall"@,
        "issue_void4_kcall"@, "alloc_free_frame"@, "free_null_frame"@, "free_invalid_frame"@,
        "double_free_frame"@, "create_remove_vmem"@, "remove_null_vmem"@, "map_unmap_vmem"@,
    ]
}

/// Which checks pass when the run starts from tables `s`.
pub open spec fn check_outcomes(s: KernelState) -> Seq<bool> {
    seq![
        true, true, true, true, true, s.has_free_frame(), true, true, s.has_free_frame(),
        s.has_free_space(), true, s.has_free_space() && s.has_free_frame(),
    ]
}

/// Writes the line that reports one check.
pub fn report_line(name: &str, passed: bool) -> (r: String)
    ensures
        r@ == report(name@, passed),
{
    let mut logger = Logger::get("init");
    if passed {
        logger.write_str("passed");
    } else {
        logger.write_str("FAILED");
    }
    logger.write_str(" ");
    logger.write_str(name);
    logger.finish()
}

/// Tests if we can issue kernel calls: runs every check in order and returns
/// one report line per check.
pub fn test_kernel_calls(kernel: &mut Kernel) -> (r: Vec<String>)
    requires
        old(kernel)@.wf(),
    ensures
        final(kernel)@.wf(),
        r@.len() == 12,
        forall|i: int| 0 <= i < 12 ==> (#[trigger] r@[i])@ == report(check_names()[i], check_outcomes(old(kernel)@)[i]),
{
    let mut lines: Vec<String> = Vec::new();
    let ok = issue_void0_kcall(kernel);
    lines.push(report_line("issue_void0_kcall", ok));
    let ok = issue_void1_kcall(kernel);
    lines.push(report_line("issue_void1_kcall", ok));
    let ok = issue_void2_kcall(kernel);
    lines.push(report_line("issue_void2_kcall", ok));
    let ok = issue_void3_kcall(kernel);
    lines.push(report_line("issue_void3_kcall", ok));
    let ok = issue_void4_kcall(kernel);
    lines.push(report_line("issue_void4_kcall", ok));
    let ok = alloc_free_frame(kernel);
    lines.push(report_line("alloc_free_frame", ok));
    let ok = free_null_frame(kernel);
    lines.push(report_line("free_null_frame", ok));
    let ok = free_invalid_frame(kernel);
    lines.push(report_line("free_invalid_frame", ok));
    let ok = double_free_frame(kernel);
    lines.push(report_line("double_free_frame", ok));
    let ok = create_remove_vmem(kernel);
    lines.push(report_line("create_remove_vmem", ok));
    let ok = remove_null_vmem(kernel);
    lines.push(report_line("remove_null_vmem", ok));
    let ok = map_unmap_vmem(kernel);
    lines.push(report_line("map_unmap_vmem", ok));
    lines
}

} // verus!
