//! Typed wrappers for the kernel calls outside the mailbox interface: the
//! test calls, page frames, virtual-memory spaces and power.

use vstd::prelude::*;
use crate::kcall::{kcall0, kcall1, kcall2, kcall3, kcall4, KcallNumber};
use crate::kernel::{void_sum, Kernel};

verus! {

/// Issues the test call without arguments.
pub fn void0(kernel: &mut Kernel) -> (r: u32)
    requires
        old(kernel)@.wf(),
    ensures
        final(kernel)@ == old(kernel)@,
        r == void_sum(seq![]),
{
    let mut unused: Vec<u8> = Vec::new();
    kernel.dispatch(&kcall0(KcallNumber::Void0), &mut unused)
}

/// Issues the test call with one argument.
pub fn void1(kernel: &mut Kernel, a0: u32) -> (r: u32)
    requires
        old(kernel)@.wf(),
    ensures
        final(kernel)@ == old(kernel)@,
        r == void_sum(seq![a0]),
{
    let mut unused: Vec<u8> = Vec::new();
    kernel.dispatch(&kcall1(KcallNumber::Void1, a0), &mut unused)
}

/// Issues the test call with two arguments.
pub fn void2(kernel: &mut Kernel, a0: u32, a1: u32) -> (r: u32)
    requires
        old(kernel)@.wf(),
    ensures
        final(kernel)@ == old(kernel)@,
        r == void_sum(seq![a0, a1]),
{
    let mut unused: Vec<u8> = Vec::new();
    kernel.dispatch(&kcall2(KcallNumber::Void2, a0, a1), &mut unused)
}

/// Issues the test call with three arguments.
pub fn void3(kernel: &mut Kernel, a0: u32, a1: u32, a2: u32) -> (r: u32)
    requires
        old(kernel)@.wf(),
    ensures
        final(kernel)@ == old(kernel)@,
        r == void_sum(seq![a0, a1, a2]),
{
    let mut unused: Vec<u8> = Vec::new();
    kernel.dispatch(&kcall3(KcallNumber::Void3, a0, a1, a2), &mut unused)
}

/// Issues the test call with four arguments.
pub fn void4(kernel: &mut Kernel, a0: u32, a1: u32, a2: u32, a3: u32) -> (r: u32)
    requires
        old(kernel)@.wf(),
    ensures
        final(kernel)@ == old(kernel)@,
        r == void_sum(seq![a0, a1, a2, a3]),
{
    let mut unused: Vec<u8> = Vec::new();
    kernel.dispatch(&kcall4(KcallNumber::Void4, a0, a1, a2, a3), &mut unused)
}

/// Allocates a user page frame; `NULL_FRAME` when none is free.
pub fn fralloc(kernel: &mut Kernel) -> (r: u32)
    requires
        old(kernel)@.wf(),
    ensures
        final(kernel)@.wf(),
        old(kernel)@.frame_alloc(final(kernel)@, r),
{
    let mut unused: Vec<u8> = Vec::new();
    kernel.dispatch(&kcall0(KcallNumber::FrameAlloc), &mut unused)
}

/// Releases a user page frame; 0 on success.
pub fn frfree(kernel: &mut Kernel, frame: u32) -> (r: u32)
    requires
        old(kernel)@.wf(),
    ensures
        final(kernel)@.wf(),
        final(kernel)@ == old(kernel)@.after_frame_free(frame as int),
        r == old(kernel)@.frame_free_result(frame as int) as u32,
{
    let mut unused: Vec<u8> = Vec::new();
    kernel.dispatch(&kcall1(KcallNumber::FrameFree, frame), &mut unused)
}

/// Creates a virtual-memory space; `NULL_VMEM` when none is left.
pub fn vmcreate(kernel: &mut Kernel) -> (r: u32)
    requires
        old(kernel)@.wf(),
    ensures
        final(kernel)@.wf(),
        old(kernel)@.vm_create(final(kernel)@, r),
{
    let mut unused: Vec<u8> = Vec::new();
    kernel.dispatch(&kcall0(KcallNumber::VmCreate), &mut unused)
}

/// Removes a virtual-memory space that maps nothing; 0 on success.
pub fn vmremove(kernel: &mut Kernel, vmem: u32) -> (r: u32)
    requires
        old(kernel)@.wf(),
    ensures
        final(kernel)@.wf(),
        final(kernel)@ == old(kernel)@.after_vm_remove(vmem as int),
        r == old(kernel)@.vm_remove_result(vmem as int) as u32,
{
    let mut unused: Vec<u8> = Vec::new();
    kernel.dispatch(&kcall1(KcallNumber::VmRemove, vmem), &mut unused)
}

/// Maps a page frame at `vaddr` in a virtual-memory space; 0 on success.
pub fn vmmap(kernel: &mut Kernel, vmem: u32, vaddr: u32, frame: u32) -> (r: u32)
    requires
        old(kernel)@.wf(),
    ensures
        final(kernel)@.wf(),
        final(kernel)@ == old(kernel)@.after_vm_map(vmem as int, vaddr as int, frame as int),
        r == old(kernel)@.vm_map_result(vmem as int, vaddr as int, frame as int) as u32,
{
    let mut unused: Vec<u8> = Vec::new();
    kernel.dispatch(&kcall3(KcallNumber::VmMap, vmem, vaddr, frame), &mut unused)
}

/// Unmaps the page at `vaddr` of a virtual-memory space and returns the
/// frame that backed it.
pub fn vmunmap(kernel: &mut Kernel, vmem: u32, vaddr: u32) -> (r: u32)
    requires
        old(kernel)@.wf(),
    ensures
        final(kernel)@.wf(),
        old(kernel)@.vm_unmap(vmem as int, vaddr as int, final(kernel)@, r),
{
    let mut unused: Vec<u8> = Vec::new();
    kernel.dispatch(&kcall2(KcallNumber::VmUnmap, vmem, vaddr), &mut unused)
}

/// Shuts the system down. The kernel handle is given up: no call can be
/// issued after this one.
pub fn shutdown(kernel: Kernel)
    requires
        kernel@.wf(),
{
    let mut kernel = kernel;
    let mut unused: Vec<u8> = Vec::new();
    let _ = kernel.dispatch(&kcall0(KcallNumber::Shutdown), &mut unused);
}

} // verus!
