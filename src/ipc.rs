//! The mailbox IPC interface: each operation marshals its arguments into one
//! kernel call and hands the kernel's verdict back unchanged, non-negative
//! for success and negative for an error.

use vstd::prelude::*;
use crate::kcall::{kcall1, kcall2, kcall3, KcallNumber};
use crate::kernel::{lemma_register_cast, mailbox_in_range, prefix, Kernel, KernelState, MAILBOX_MAX, MAILBOX_MESSAGE_SIZE};

verus! {

/// Gets the owner of a mailbox.
pub fn mailbox_owner(kernel: &mut Kernel, mbxid: i32) -> (r: i32)
    requires
        old(kernel)@.wf(),
    ensures
        final(kernel)@ == old(kernel)@,
        r == old(kernel)@.owner_result(mbxid as int),
{
    let call = kcall1(KcallNumber::MbOwner, mbxid as u32);
    let mut unused: Vec<u8> = Vec::new();
    let raw = kernel.dispatch(&call, &mut unused);
    proof {
        lemma_register_cast(mbxid);
        lemma_register_cast(old(kernel)@.owner_result(mbxid as int));
    }
    raw as i32
}

/// Tells whether a mailbox is assigned: 1 if it is, 0 if not.
pub fn mailbox_is_assigned(kernel: &mut Kernel, mbxid: i32) -> (r: i32)
    requires
        old(kernel)@.wf(),
    ensures
        final(kernel)@ == old(kernel)@,
        r == old(kernel)@.is_assigned_result(mbxid as int),
{
    let call = kcall1(KcallNumber::MbIsAssigned, mbxid as u32);
    let mut unused: Vec<u8> = Vec::new();
    let raw = kernel.dispatch(&call, &mut unused);
    proof {
        lemma_register_cast(mbxid);
        lemma_register_cast(old(kernel)@.is_assigned_result(mbxid as int));
    }
    raw as i32
}

/// Gets the default tag of a mailbox.
pub fn mailbox_default(kernel: &mut Kernel, mbxid: i32) -> (r: i32)
    requires
        old(kernel)@.wf(),
    ensures
        final(kernel)@ == old(kernel)@,
        r == old(kernel)@.default_result(mbxid as int),
{
    let call = kcall1(KcallNumber::MbDefault, mbxid as u32);
    let mut unused: Vec<u8> = Vec::new();
    let raw = kernel.dispatch(&call, &mut unused);
    proof {
        lemma_register_cast(mbxid);
        lemma_register_cast(old(kernel)@.default_result(mbxid as int));
    }
    raw as i32
}

/// Gets the tag bound to a mailbox.
pub fn mailbox_tag(kernel: &mut Kernel, mbxid: i32) -> (r: i32)
    requires
        old(kernel)@.wf(),
    ensures
        final(kernel)@ == old(kernel)@,
        r == old(kernel)@.tag_result(mbxid as int),
{
    let call = kcall1(KcallNumber::MbTag, mbxid as u32);
    let mut unused: Vec<u8> = Vec::new();
    let raw = kernel.dispatch(&call, &mut unused);
    proof {
        lemma_register_cast(mbxid);
        lemma_register_cast(old(kernel)@.tag_result(mbxid as int));
    }
    raw as i32
}

/// Assigns a mailbox to `owner` under `tag`.
pub fn mailbox_assign(kernel: &mut Kernel, mbxid: i32, owner: i32, tag: i32) -> (r: i32)
    requires
        old(kernel)@.wf(),
    ensures
        final(kernel)@.wf(),
        final(kernel)@ == old(kernel)@.after_assign(mbxid as int, owner as int, tag as int),
        r == old(kernel)@.assign_result(mbxid as int, owner as int, tag as int),
{
    let call = kcall3(KcallNumber::MbAssign, mbxid as u32, owner as u32, tag as u32);
    let mut unused: Vec<u8> = Vec::new();
    let raw = kernel.dispatch(&call, &mut unused);
    proof {
        lemma_register_cast(mbxid);
        lemma_register_cast(owner);
        lemma_register_cast(tag);
        lemma_register_cast(old(kernel)@.assign_result(mbxid as int, owner as int, tag as int));
    }
    raw as i32
}

/// Links a mailbox for message delivery.
pub fn mailbox_link(kernel: &mut Kernel, mbxid: i32) -> (r: i32)
    requires
        old(kernel)@.wf(),
    ensures
        final(kernel)@.wf(),
        final(kernel)@ == old(kernel)@.after_link(mbxid as int),
        r == old(kernel)@.link_result(mbxid as int),
{
    let call = kcall1(KcallNumber::MbLink, mbxid as u32);
    let mut unused: Vec<u8> = Vec::new();
    let raw = kernel.dispatch(&call, &mut unused);
    proof {
        lemma_register_cast(mbxid);
        lemma_register_cast(old(kernel)@.link_result(mbxid as int));
    }
    raw as i32
}

/// Unlinks a mailbox.
pub fn mailbox_unlink(kernel: &mut Kernel, mbxid: i32) -> (r: i32)
    requires
        old(kernel)@.wf(),
    ensures
        final(kernel)@.wf(),
        final(kernel)@ == old(kernel)@.after_unlink(mbxid as int),
        r == old(kernel)@.unlink_result(mbxid as int),
{
    let call = kcall1(KcallNumber::MbUnlink, mbxid as u32);
    let mut unused: Vec<u8> = Vec::new();
    let raw = kernel.dispatch(&call, &mut unused);
    proof {
        lemma_register_cast(mbxid);
        lemma_register_cast(old(kernel)@.unlink_result(mbxid as int));
    }
    raw as i32
}

/// Adds the first `sz` bytes of `msg` to a mailbox as one message.
pub fn mailbox_push(kernel: &mut Kernel, mbxid: i32, msg: &Vec<u8>, sz: i32) -> (r: i32)
    requires
        old(kernel)@.wf(),
    ensures
        final(kernel)@.wf(),
        final(kernel)@ == old(kernel)@.after_push(mbxid as int, sz as int, msg@),
        r == old(kernel)@.push_result(mbxid as int, sz as int, msg@),
{
    let call = kcall2(KcallNumber::MbPush, mbxid as u32, sz as u32);
    let mut payload = prefix(msg, msg.len());
    assert(payload@ =~= msg@);
    let raw = kernel.dispatch(&call, &mut payload);
    proof {
        lemma_register_cast(mbxid);
        lemma_register_cast(sz);
        lemma_register_cast(old(kernel)@.push_result(mbxid as int, sz as int, msg@));
    }
    raw as i32
}

/// Removes the oldest message of a mailbox into `msg`, which accepts at
/// most `sz` bytes.
pub fn mailbox_pop(kernel: &mut Kernel, mbxid: i32, msg: &mut Vec<u8>, sz: i32) -> (r: i32)
    requires
        old(kernel)@.wf(),
    ensures
        final(kernel)@.wf(),
        final(kernel)@ == old(kernel)@.after_pop(mbxid as int, sz as int),
        final(msg)@ == old(kernel)@.popped(mbxid as int, sz as int, old(msg)@),
        r == old(kernel)@.pop_result(mbxid as int, sz as int),
{
    let call = kcall2(KcallNumber::MbPop, mbxid as u32, sz as u32);
    let raw = kernel.dispatch(&call, msg);
    proof {
        lemma_register_cast(mbxid);
        lemma_register_cast(sz);
        lemma_register_cast(old(kernel)@.pop_result(mbxid as int, sz as int));
    }
    raw as i32
}

/// Turns a status into a typed outcome: a non-negative value is success and
/// a negative one is the error code, unchanged.
pub fn check_status(status: i32) -> (r: Result<u32, i32>)
    ensures
        status >= 0 ==> r == Ok::<u32, i32>(status as u32),
        status < 0 ==> r == Err::<u32, i32>(status),
{
    if status >= 0 {
        Ok(status as u32)
    } else {
        Err(status)
    }
}

/// An id outside `0 .. MAILBOX_MAX` is rejected by every mailbox operation
/// with a negative result, and the tables are left as they were.
pub proof fn lemma_out_of_range_rejected(
    s: KernelState,
    m: int,
    owner: int,
    tag: int,
    sz: int,
    msg: Seq<u8>,
    buf: Seq<u8>,
)
    requires
        s.wf(),
        m < 0 || m >= MAILBOX_MAX,
    ensures
        s.owner_result(m) < 0,
        s.is_assigned_result(m) < 0,
        s.default_result(m) < 0,
        s.tag_result(m) < 0,
        s.assign_result(m, owner, tag) < 0,
        s.after_assign(m, owner, tag) == s,
        s.link_result(m) < 0,
        s.after_link(m) == s,
        s.unlink_result(m) < 0,
        s.after_unlink(m) == s,
        s.push_result(m, sz, msg) < 0,
        s.after_push(m, sz, msg) == s,
        s.pop_result(m, sz) < 0,
        s.after_pop(m, sz) == s,
        s.popped(m, sz, buf) == buf,
{
}

/// A mailbox that is not assigned has neither owner nor tag.
pub proof fn lemma_unassigned_has_no_owner_or_tag(s: KernelState, m: int)
    requires
        s.wf(),
        mailbox_in_range(m),
        !s.slots[m].assigned,
    ensures
        s.owner_result(m) < 0,
        s.tag_result(m) < 0,
{
}

/// Linking twice in a row fails the second time.
pub proof fn lemma_link_twice_rejected(s: KernelState, m: int)
    requires
        s.wf(),
        s.link_result(m) == 0,
    ensures
        s.after_link(m).link_result(m) < 0,
        s.after_link(m).after_link(m) == s.after_link(m),
{
}

/// Unlinking a mailbox that is not linked fails: a mailbox never linked, one
/// just unlinked, and every mailbox of freshly booted tables.
pub proof fn lemma_unlink_without_link_rejected(s: KernelState, m: int)
    requires
        s.wf(),
    ensures
        mailbox_in_range(m) && !s.slots[m].linked ==> s.unlink_result(m) < 0,
        s.unlink_result(m) == 0 ==> s.after_unlink(m).unlink_result(m) < 0,
        KernelState::initial().unlink_result(m) < 0,
{
}

/// Push and pop fail on a mailbox that is not linked, assigned or not, and
/// change nothing.
pub proof fn lemma_unlinked_push_pop_rejected(s: KernelState, m: int, sz: int, msg: Seq<u8>, buf: Seq<u8>)
    requires
        s.wf(),
        mailbox_in_range(m),
        !s.slots[m].linked,
    ensures
        s.push_result(m, sz, msg) < 0,
        s.after_push(m, sz, msg) == s,
        s.pop_result(m, sz) < 0,
        s.after_pop(m, sz) == s,
        s.popped(m, sz, buf) == buf,
{
}

/// Messages of a linked mailbox come out in the order they went in: a message
/// pushed onto an empty mailbox is the next one popped, byte for byte.
pub proof fn lemma_push_then_pop(s: KernelState, m: int, sz: int, msg: Seq<u8>, buf: Seq<u8>)
    requires
        s.wf(),
        mailbox_in_range(m),
        s.slots[m].linked,
        s.queues[m].len() == 0,
        0 <= sz <= MAILBOX_MESSAGE_SIZE,
        sz <= msg.len(),
    ensures
        s.push_result(m, sz, msg) == 0,
        s.after_push(m, sz, msg).pop_result(m, sz) == 0,
        s.after_push(m, sz, msg).popped(m, sz, buf) == msg.take(sz),
        s.after_push(m, sz, msg).after_pop(m, sz).queues[m].len() == 0,
{
    let t = s.after_push(m, sz, msg);
    assert(t.queues[m] == seq![msg.take(sz)]);
    assert(t.queues[m].drop_first() =~= Seq::<Seq<u8>>::empty());
}

} // verus!
