//! An executable model of the kernel side of the boundary: the mailbox table,
//! the user page-frame allocator and the virtual-memory spaces, driven only
//! through `Kernel::dispatch`.
//!
//! Policies of this kernel where the interface leaves a choice:
//! - assigning a mailbox that is already assigned is refused (`EBUSY`);
//! - unlinking keeps the owner and tag bound, so `tag` still answers after
//!   `unlink`, and drops the messages still waiting;
//! - popping from an empty mailbox returns `EAGAIN` at once;
//! - a space that still maps pages cannot be removed (`EBUSY`).

use vstd::prelude::*;
use crate::kcall::{decode, Kcall, KcallNumber};

verus! {

/// Maximum number of mailboxes; ids are `0 .. MAILBOX_MAX`.
pub const MAILBOX_MAX: u32 = 256;
/// Largest message payload, in bytes.
pub const MAILBOX_MESSAGE_SIZE: u32 = 64;
/// Largest number of messages waiting in one mailbox.
pub const MAILBOX_QUEUE_LENGTH: usize = 8;
/// Tag reported by the default-tag query.
pub const MAILBOX_DEFAULT_TAG: i32 = 0;

/// Size of a page and of a page frame, in bytes.
pub const PAGE_SIZE: u32 = 4096;
/// First address of kernel memory.
pub const KERNEL_BASE_ADDRESS: u32 = 0;
/// First address of user memory.
pub const USER_BASE_ADDRESS: u32 = 0x0040_0000;
/// First user page frame.
pub const USER_FRAME_BASE: u32 = 1024;
/// Number of user page frames.
pub const USER_FRAME_COUNT: u32 = 64;
/// Page frame number that stands for "no frame".
pub const NULL_FRAME: u32 = 0xFFFF_FFFF;
/// Number of virtual-memory spaces.
pub const VMEM_COUNT: u32 = 8;
/// Identifier that stands for "no virtual-memory space".
pub const NULL_VMEM: u32 = 0xFFFF_FFFF;

/// No such entry (mailbox not assigned).
pub const ENOENT: i32 = -2;
/// Try again (no message waiting).
pub const EAGAIN: i32 = -11;
/// Resource busy (already assigned, already linked, still in use).
pub const EBUSY: i32 = -16;
/// Invalid argument (identifier out of range, bad owner, bad tag).
pub const EINVAL: i32 = -22;
/// Unknown kernel call.
pub const ENOSYS: i32 = -38;
/// Message too long for the payload or for the receiving buffer.
pub const EMSGSIZE: i32 = -90;
/// Mailbox queue full.
pub const ENOBUFS: i32 = -105;
/// Mailbox not linked.
pub const ENOTCONN: i32 = -107;

/// What the kernel records for one mailbox.
#[derive(Clone, Copy, Debug, PartialEq, Eq, Structural)]
pub struct Slot {
    pub assigned: bool,
    pub owner: i32,
    pub tag: i32,
    pub linked: bool,
}

/// One page of a virtual-memory space backed by a page frame.
#[derive(Clone, Copy, Debug, PartialEq, Eq, Structural)]
pub struct Mapping {
    pub space: u32,
    pub vaddr: u32,
    pub frame: u32,
}

/// The abstract state of the kernel tables.
pub struct KernelState {
    pub slots: Seq<Slot>,
    pub queues: Seq<Seq<Seq<u8>>>,
    pub frames: Seq<bool>,
    pub spaces: Seq<bool>,
    pub mappings: Seq<Mapping>,
}

/// The kernel tables.
pub struct Kernel {
    slots: Vec<Slot>,
    queues: Vec<Vec<Vec<u8>>>,
    frames: Vec<bool>,
    spaces: Vec<bool>,
    mappings: Vec<Mapping>,
}

/// `m` names a mailbox.
pub open spec fn mailbox_in_range(m: int) -> bool {
    0 <= m < MAILBOX_MAX
}

/// `f` is a page frame of user memory.
pub open spec fn is_user_frame(f: int) -> bool {
    USER_FRAME_BASE <= f < USER_FRAME_BASE + USER_FRAME_COUNT
}

/// Sum of the arguments of a void call, modulo 2^32.
pub open spec fn void_sum(args: Seq<u32>) -> u32
    decreases args.len(),
{
    if args.len() == 0 {
        0
    } else {
        ((void_sum(args.drop_last()) + args.last()) % 0x1_0000_0000) as u32
    }
}

impl View for Kernel {
    type V = KernelState;

    closed spec fn view(&self) -> KernelState {
        KernelState {
            slots: self.slots@,
            queues: self.queues@.map_values(|q: Vec<Vec<u8>>| q@.map_values(|b: Vec<u8>| b@)),
            frames: self.frames@,
            spaces: self.spaces@,
            mappings: self.mappings@,
        }
    }
}

impl KernelState {
    /// Table sizes, queue bounds, and every mapping belongs to a live space.
    pub open spec fn wf(self) -> bool {
        &&& self.slots.len() == MAILBOX_MAX
        &&& self.queues.len() == MAILBOX_MAX
        &&& self.frames.len() == USER_FRAME_COUNT
        &&& self.spaces.len() == VMEM_COUNT
        &&& forall|m: int| 0 <= m < MAILBOX_MAX ==> #[trigger] self.queues[m].len() <= MAILBOX_QUEUE_LENGTH
        &&& forall|i: int| 0 <= i < self.mappings.len() ==> self.space_live(#[trigger] self.mappings[i].space as int)
    }

    /// Tables as the kernel boots: nothing assigned, linked, allocated or mapped.
    pub open spec fn initial() -> KernelState {
        KernelState {
            slots: Seq::new(MAILBOX_MAX as nat, |i: int| Slot { assigned: false, owner: 0, tag: 0, linked: false }),
            queues: Seq::new(MAILBOX_MAX as nat, |i: int| Seq::<Seq<u8>>::empty()),
            frames: Seq::new(USER_FRAME_COUNT as nat, |i: int| false),
            spaces: Seq::new(VMEM_COUNT as nat, |i: int| false),
            mappings: Seq::empty(),
        }
    }

    // ---- mailbox queries ----

    /// Result of the owner query on mailbox `m`.
    pub open spec fn owner_result(self, m: int) -> i32 {
        if !mailbox_in_range(m) {
            EINVAL
        } else if !self.slots[m].assigned {
            ENOENT
        } else {
            self.slots[m].owner
        }
    }

    /// Result of the is-assigned query: 1 or 0.
    pub open spec fn is_assigned_result(self, m: int) -> i32 {
        if !mailbox_in_range(m) {
            EINVAL
        } else if self.slots[m].assigned {
            1
        } else {
            0
        }
    }

    /// Result of the default-tag query.
    pub open spec fn default_result(self, m: int) -> i32 {
        if !mailbox_in_range(m) {
            EINVAL
        } else {
            MAILBOX_DEFAULT_TAG
        }
    }

    /// Result of the tag query.
    pub open spec fn tag_result(self, m: int) -> i32 {
        if !mailbox_in_range(m) {
            EINVAL
        } else if !self.slots[m].assigned {
            ENOENT
        } else {
            self.slots[m].tag
        }
    }

    // ---- mailbox state changes ----

    /// Result of assigning mailbox `m` to `owner` under `tag`.
    pub open spec fn assign_result(self, m: int, owner: int, tag: int) -> i32 {
        if !mailbox_in_range(m) || !(0 <= owner <= i32::MAX) || !(0 <= tag <= i32::MAX) {
            EINVAL
        } else if self.slots[m].assigned {
            EBUSY
        } else {
            0
        }
    }

    /// Tables after the assignment; unchanged when it fails. The owner and the
    /// tag are bound together.
    pub open spec fn after_assign(self, m: int, owner: int, tag: int) -> KernelState {
        if self.assign_result(m, owner, tag) == 0 {
            KernelState {
                slots: self.slots.update(m, Slot { assigned: true, owner: owner as i32, tag: tag as i32, linked: false }),
                ..self
            }
        } else {
            self
        }
    }

    /// Result of linking mailbox `m`: it must be assigned and not yet linked.
    pub open spec fn link_result(self, m: int) -> i32 {
        if !mailbox_in_range(m) {
            EINVAL
        } else if !self.slots[m].assigned {
            ENOENT
        } else if self.slots[m].linked {
            EBUSY
        } else {
            0
        }
    }

    /// Tables after linking; unchanged when it fails.
    pub open spec fn after_link(self, m: int) -> KernelState {
        if self.link_result(m) == 0 {
            KernelState { slots: self.slots.update(m, Slot { linked: true, ..self.slots[m] }), ..self }
        } else {
            self
        }
    }

    /// Result of unlinking mailbox `m`: it must be linked.
    pub open spec fn unlink_result(self, m: int) -> i32 {
        if !mailbox_in_range(m) {
            EINVAL
        } else if !self.slots[m].linked {
            ENOTCONN
        } else {
            0
        }
    }

    /// Unlinking ends the session: waiting messages are dropped, while the
    /// owner and tag stay bound.
    pub open spec fn after_unlink(self, m: int) -> KernelState {
        if self.unlink_result(m) == 0 {
            KernelState {
                slots: self.slots.update(m, Slot { linked: false, ..self.slots[m] }),
                queues: self.queues.update(m, Seq::empty()),
                ..self
            }
        } else {
            self
        }
    }

    /// Result of pushing the first `sz` bytes of `msg` onto mailbox `m`.
    pub open spec fn push_result(self, m: int, sz: int, msg: Seq<u8>) -> i32 {
        if !mailbox_in_range(m) {
            EINVAL
        } else if !self.slots[m].linked {
            ENOTCONN
        } else if !(0 <= sz <= MAILBOX_MESSAGE_SIZE) || sz > msg.len() {
            EMSGSIZE
        } else if self.queues[m].len() >= MAILBOX_QUEUE_LENGTH {
            ENOBUFS
        } else {
            0
        }
    }

    /// Tables after a push: the message joins the back of the queue.
    pub open spec fn after_push(self, m: int, sz: int, msg: Seq<u8>) -> KernelState {
        if self.push_result(m, sz, msg) == 0 {
            KernelState { queues: self.queues.update(m, self.queues[m].push(msg.take(sz))), ..self }
        } else {
            self
        }
    }

    /// Result of popping from mailbox `m` into a buffer of `sz` bytes.
    pub open spec fn pop_result(self, m: int, sz: int) -> i32 {
        if !mailbox_in_range(m) {
            EINVAL
        } else if !self.slots[m].linked {
            ENOTCONN
        } else if !(0 <= sz <= i32::MAX) {
            EINVAL
        } else if self.queues[m].len() == 0 {
            EAGAIN
        } else if self.queues[m][0].len() > sz {
            EMSGSIZE
        } else {
            0
        }
    }

    /// Tables after a pop: the front message leaves the queue.
    pub open spec fn after_pop(self, m: int, sz: int) -> KernelState {
        if self.pop_result(m, sz) == 0 {
            KernelState { queues: self.queues.update(m, self.queues[m].drop_first()), ..self }
        } else {
            self
        }
    }

    /// Contents of the receiving buffer after a pop.
    pub open spec fn popped(self, m: int, sz: int, buf: Seq<u8>) -> Seq<u8> {
        if self.pop_result(m, sz) == 0 {
            self.queues[m][0]
        } else {
            buf
        }
    }

    // ---- page frames ----

    /// Result of releasing frame `f`: it must be an allocated user frame.
    pub open spec fn frame_free_result(self, f: int) -> i32 {
        if !is_user_frame(f) || !self.frames[f - USER_FRAME_BASE] {
            EINVAL
        } else {
            0
        }
    }

    /// Tables after releasing frame `f`.
    pub open spec fn after_frame_free(self, f: int) -> KernelState {
        if self.frame_free_result(f) == 0 {
            KernelState { frames: self.frames.update(f - USER_FRAME_BASE, false), ..self }
        } else {
            self
        }
    }

    pub open spec fn has_free_frame(self) -> bool {
        exists|i: int| 0 <= i < self.frames.len() && !#[trigger] self.frames[i]
    }

    /// Allocation hands out the lowest free user frame, or `NULL_FRAME`
    /// when every frame is in use.
    pub open spec fn frame_alloc(self, post: KernelState, r: u32) -> bool {
        if !self.has_free_frame() {
            post == self && r == NULL_FRAME
        } else {
            &&& is_user_frame(r as int)
            &&& !self.frames[r - USER_FRAME_BASE]
            &&& forall|j: int| 0 <= j < r - USER_FRAME_BASE ==> #[trigger] self.frames[j]
            &&& post == KernelState { frames: self.frames.update(r - USER_FRAME_BASE, true), ..self }
        }
    }

    // ---- virtual-memory spaces ----

    pub open spec fn space_live(self, v: int) -> bool {
        0 <= v < VMEM_COUNT && self.spaces[v]
    }

    pub open spec fn has_free_space(self) -> bool {
        exists|i: int| 0 <= i < self.spaces.len() && !#[trigger] self.spaces[i]
    }

    /// Creation hands out the lowest unused space, or `NULL_VMEM`.
    pub open spec fn vm_create(self, post: KernelState, r: u32) -> bool {
        if !self.has_free_space() {
            post == self && r == NULL_VMEM
        } else {
            &&& r < VMEM_COUNT
            &&& !self.spaces[r as int]
            &&& forall|j: int| 0 <= j < r ==> #[trigger] self.spaces[j]
            &&& post == KernelState { spaces: self.spaces.update(r as int, true), ..self }
        }
    }

    pub open spec fn space_has_mappings(self, v: int) -> bool {
        exists|i: int| 0 <= i < self.mappings.len() && #[trigger] self.mappings[i].space == v
    }

    /// Result of removing space `v`: it must be live and map nothing.
    pub open spec fn vm_remove_result(self, v: int) -> i32 {
        if !self.space_live(v) {
            EINVAL
        } else if self.space_has_mappings(v) {
            EBUSY
        } else {
            0
        }
    }

    /// Tables after space `v` is removed.
    pub open spec fn after_vm_remove(self, v: int) -> KernelState {
        if self.vm_remove_result(v) == 0 {
            KernelState { spaces: self.spaces.update(v, false), ..self }
        } else {
            self
        }
    }

    pub open spec fn is_mapped(self, v: int, vaddr: int) -> bool {
        exists|i: int|
            0 <= i < self.mappings.len() && (#[trigger] self.mappings[i]).space == v
                && self.mappings[i].vaddr == vaddr
    }

    /// Result of mapping frame `f` at page `vaddr` of space `v`.
    pub open spec fn vm_map_result(self, v: int, vaddr: int, f: int) -> i32 {
        if !self.space_live(v) {
            EINVAL
        } else if !(USER_BASE_ADDRESS <= vaddr && vaddr % (PAGE_SIZE as int) == 0) {
            EINVAL
        } else if !is_user_frame(f) || !self.frames[f - USER_FRAME_BASE] {
            EINVAL
        } else if self.is_mapped(v, vaddr) {
            EBUSY
        } else {
            0
        }
    }

    /// Tables after a mapping is added.
    pub open spec fn after_vm_map(self, v: int, vaddr: int, f: int) -> KernelState {
        if self.vm_map_result(v, vaddr, f) == 0 {
            KernelState {
                mappings: self.mappings.push(Mapping { space: v as u32, vaddr: vaddr as u32, frame: f as u32 }),
                ..self
            }
        } else {
            self
        }
    }

    /// Unmapping removes the first mapping of the page and returns its frame.
    pub open spec fn vm_unmap(self, v: int, vaddr: int, post: KernelState, r: u32) -> bool {
        if !self.space_live(v) || !self.is_mapped(v, vaddr) {
            post == self && r == EINVAL as u32
        } else {
            exists|i: int|
                0 <= i < self.mappings.len() && #[trigger] self.mappings[i].space == v
                    && self.mappings[i].vaddr == vaddr
                    && (forall|j: int| 0 <= j < i ==> !(#[trigger] self.mappings[j].space == v
                        && self.mappings[j].vaddr == vaddr))
                    && r == self.mappings[i].frame
                    && post == KernelState { mappings: self.mappings.remove(i), ..self }
        }
    }

    // ---- the whole call ----

    /// What one kernel call does: from this state and the caller's buffer, to
    /// `post`, the scalar result `r` and the buffer afterwards.
    pub open spec fn step(
        self,
        number: u32,
        args: Seq<u32>,
        buf: Seq<u8>,
        post: KernelState,
        r: u32,
        buf_post: Seq<u8>,
    ) -> bool {
        match decode(number) {
            None => post == self && r == ENOSYS as u32 && buf_post == buf,
            Some(k) => if args.len() != k.arity_spec() {
                post == self && r == EINVAL as u32 && buf_post == buf
            } else {
                &&& (k != KcallNumber::MbPop ==> buf_post == buf)
                &&& match k {
                    KcallNumber::Void0 | KcallNumber::Void1 | KcallNumber::Void2
                    | KcallNumber::Void3 | KcallNumber::Void4 => post == self && r == void_sum(args),
                    KcallNumber::Shutdown => post == self && r == 0,
                    KcallNumber::FrameAlloc => self.frame_alloc(post, r),
                    KcallNumber::FrameFree => post == self.after_frame_free(args[0] as int)
                        && r == self.frame_free_result(args[0] as int) as u32,
                    KcallNumber::VmCreate => self.vm_create(post, r),
                    KcallNumber::VmRemove => post == self.after_vm_remove(args[0] as int)
                        && r == self.vm_remove_result(args[0] as int) as u32,
                    KcallNumber::VmMap => post == self.after_vm_map(args[0] as int, args[1] as int, args[2] as int)
                        && r == self.vm_map_result(args[0] as int, args[1] as int, args[2] as int) as u32,
                    KcallNumber::VmUnmap => self.vm_unmap(args[0] as int, args[1] as int, post, r),
                    KcallNumber::MbOwner => post == self && r == self.owner_result(args[0] as int) as u32,
                    KcallNumber::MbIsAssigned => post == self && r == self.is_assigned_result(args[0] as int) as u32,
                    KcallNumber::MbDefault => post == self && r == self.default_result(args[0] as int) as u32,
                    KcallNumber::MbTag => post == self && r == self.tag_result(args[0] as int) as u32,
                    KcallNumber::MbAssign => post == self.after_assign(args[0] as int, args[1] as int, args[2] as int)
                        && r == self.assign_result(args[0] as int, args[1] as int, args[2] as int) as u32,
                    KcallNumber::MbLink => post == self.after_link(args[0] as int)
                        && r == self.link_result(args[0] as int) as u32,
                    KcallNumber::MbUnlink => post == self.after_unlink(args[0] as int)
                        && r == self.unlink_result(args[0] as int) as u32,
                    KcallNumber::MbPush => post == self.after_push(args[0] as int, args[1] as int, buf)
                        && r == self.push_result(args[0] as int, args[1] as int, buf) as u32,
                    KcallNumber::MbPop => post == self.after_pop(args[0] as int, args[1] as int)
                        && r == self.pop_result(args[0] as int, args[1] as int) as u32
                        && buf_post == self.popped(args[0] as int, args[1] as int, buf),
                }
            },
        }
    }
}

/// An `i32` travels through a `u32` register and comes back unchanged; a
/// negative one lands at or above 2^31.
pub(crate) proof fn lemma_register_cast(x: i32)
    ensures
        (x as u32) as i32 == x,
        x >= 0 ==> (x as u32) as int == x as int,
        x < 0 ==> (x as u32) >= 0x8000_0000,
{
    assert((x as u32) as i32 == x) by (bit_vector);
    assert(x >= 0 ==> (x as u32) == x) by (bit_vector);
    assert(x < 0 ==> (x as u32) >= 0x8000_0000) by (bit_vector);
}

/// The first `n` bytes of `v`.
pub(crate) fn prefix(v: &Vec<u8>, n: usize) -> (r: Vec<u8>)
    requires
        n <= v.len(),
    ensures
        r@ == v@.take(n as int),
{
    let mut r: Vec<u8> = Vec::new();
    let mut i: usize = 0;
    while i < n
        invariant
            n <= v.len(),
            i <= n,
            r@ == v@.take(i as int),
        decreases n - i,
    {
        r.push(v[i]);
        i = i + 1;
        assert(r@ =~= v@.take(i as int));
    }
    r
}

impl Kernel {
    /// Tables as the kernel boots.
    pub fn new() -> (r: Kernel)
        ensures
            r@ == KernelState::initial(),
            r@.wf(),
    {
        let mut slots: Vec<Slot> = Vec::new();
        let mut queues: Vec<Vec<Vec<u8>>> = Vec::new();
        let mut i: u32 = 0;
        while i < MAILBOX_MAX
            invariant
                i <= MAILBOX_MAX,
                slots@.len() == i,
                queues@.len() == i,
                forall|j: int| 0 <= j < i ==> #[trigger] slots@[j] == (Slot { assigned: false, owner: 0, tag: 0, linked: false }),
                forall|j: int| 0 <= j < i ==> (#[trigger] queues@[j])@.len() == 0,
            decreases MAILBOX_MAX - i,
        {
            slots.push(Slot { assigned: false, owner: 0, tag: 0, linked: false });
            queues.push(Vec::new());
            i = i + 1;
        }
        let mut frames: Vec<bool> = Vec::new();
        let mut i: u32 = 0;
        while i < USER_FRAME_COUNT
            invariant
                i <= USER_FRAME_COUNT,
                frames@.len() == i,
                forall|j: int| 0 <= j < i ==> !#[trigger] frames@[j],
            decreases USER_FRAME_COUNT - i,
        {
            frames.push(false);
            i = i + 1;
        }
        let mut spaces: Vec<bool> = Vec::new();
        let mut i: u32 = 0;
        while i < VMEM_COUNT
            invariant
                i <= VMEM_COUNT,
                spaces@.len() == i,
                forall|j: int| 0 <= j < i ==> !#[trigger] spaces@[j],
            decreases VMEM_COUNT - i,
        {
            spaces.push(false);
            i = i + 1;
        }
        let r = Kernel { slots, queues, frames, spaces, mappings: Vec::new() };
        proof {
            let init = KernelState::initial();
            assert(r@.slots =~= init.slots);
            assert(r@.queues =~~= init.queues);
            assert(r@.frames =~= init.frames);
            assert(r@.spaces =~= init.spaces);
            assert(r@.mappings =~= init.mappings);
        }
        r
    }

    /// Performs one kernel call. `buffer` is the caller's memory that the
    /// call's payload pointer designates: push reads it, pop fills it.
    pub fn dispatch(&mut self, call: &Kcall, buffer: &mut Vec<u8>) -> (r: u32)
        requires
            old(self)@.wf(),
        ensures
            final(self)@.wf(),
            old(self)@.step(call.number, call.args@, old(buffer)@, final(self)@, r, final(buffer)@),
    {
        match KcallNumber::from_number(call.number) {
            None => ENOSYS as u32,
            Some(k) => {
                if call.args.len() != k.arity() {
                    return EINVAL as u32;
                }
                match k {
                    KcallNumber::Void0 | KcallNumber::Void1 | KcallNumber::Void2
                    | KcallNumber::Void3 | KcallNumber::Void4 => sum_args(&call.args),
                    KcallNumber::Shutdown => 0,
                    KcallNumber::FrameAlloc => self.frame_alloc(),
                    KcallNumber::FrameFree => self.frame_free(call.args[0]) as u32,
                    KcallNumber::VmCreate => self.vm_create(),
                    KcallNumber::VmRemove => self.vm_remove(call.args[0]) as u32,
                    KcallNumber::VmMap => self.vm_map(call.args[0], call.args[1], call.args[2]) as u32,
                    KcallNumber::VmUnmap => self.vm_unmap(call.args[0], call.args[1]),
                    KcallNumber::MbOwner => self.owner(call.args[0]) as u32,
                    KcallNumber::MbIsAssigned => self.is_assigned(call.args[0]) as u32,
                    KcallNumber::MbDefault => self.default_tag(call.args[0]) as u32,
                    KcallNumber::MbTag => self.tag(call.args[0]) as u32,
                    KcallNumber::MbAssign => self.assign(call.args[0], call.args[1], call.args[2]) as u32,
                    KcallNumber::MbLink => self.link(call.args[0]) as u32,
                    KcallNumber::MbUnlink => self.unlink(call.args[0]) as u32,
                    KcallNumber::MbPush => self.push(call.args[0], call.args[1], buffer) as u32,
                    KcallNumber::MbPop => self.pop(call.args[0], call.args[1], buffer) as u32,
                }
            },
        }
    }

    fn owner(&self, m: u32) -> (r: i32)
        requires
            self@.wf(),
        ensures
            r == self@.owner_result(m as int),
    {
        if m >= MAILBOX_MAX {
            return EINVAL;
        }
        let s = self.slots[m as usize];
        if !s.assigned {
            ENOENT
        } else {
            s.owner
        }
    }

    fn is_assigned(&self, m: u32) -> (r: i32)
        requires
            self@.wf(),
        ensures
            r == self@.is_assigned_result(m as int),
    {
        if m >= MAILBOX_MAX {
            EINVAL
        } else if self.slots[m as usize].assigned {
            1
        } else {
            0
        }
    }

    fn default_tag(&self, m: u32) -> (r: i32)
        requires
            self@.wf(),
        ensures
            r == self@.default_result(m as int),
    {
        if m >= MAILBOX_MAX {
            EINVAL
        } else {
            MAILBOX_DEFAULT_TAG
        }
    }

    fn tag(&self, m: u32) -> (r: i32)
        requires
            self@.wf(),
        ensures
            r == self@.tag_result(m as int),
    {
        if m >= MAILBOX_MAX {
            return EINVAL;
        }
        let s = self.slots[m as usize];
        if !s.assigned {
            ENOENT
        } else {
            s.tag
        }
    }

    fn assign(&mut self, m: u32, owner: u32, tag: u32) -> (r: i32)
        requires
            old(self)@.wf(),
        ensures
            final(self)@.wf(),
            r == old(self)@.assign_result(m as int, owner as int, tag as int),
            final(self)@ == old(self)@.after_assign(m as int, owner as int, tag as int),
    {
        if m >= MAILBOX_MAX || owner > 0x7FFF_FFFF || tag > 0x7FFF_FFFF {
            return EINVAL;
        }
        if self.slots[m as usize].assigned {
            return EBUSY;
        }
        self.slots[m as usize] = Slot { assigned: true, owner: owner as i32, tag: tag as i32, linked: false };
        assert forall|k: int| 0 <= k < self@.mappings.len() implies self@.space_live(#[trigger] self@.mappings[k].space as int) by {
            assert(old(self)@.space_live(old(self)@.mappings[k].space as int));
        }
        0
    }

    fn link(&mut self, m: u32) -> (r: i32)
        requires
            old(self)@.wf(),
        ensures
            final(self)@.wf(),
            r == old(self)@.link_result(m as int),
            final(self)@ == old(self)@.after_link(m as int),
    {
        if m >= MAILBOX_MAX {
            return EINVAL;
        }
        let s = self.slots[m as usize];
        if !s.assigned {
            return ENOENT;
        }
        if s.linked {
            return EBUSY;
        }
        self.slots[m as usize] = Slot { linked: true, ..s };
        assert forall|k: int| 0 <= k < self@.mappings.len() implies self@.space_live(#[trigger] self@.mappings[k].space as int) by {
            assert(old(self)@.space_live(old(self)@.mappings[k].space as int));
        }
        0
    }

    fn unlink(&mut self, m: u32) -> (r: i32)
        requires
            old(self)@.wf(),
        ensures
            final(self)@.wf(),
            r == old(self)@.unlink_result(m as int),
            final(self)@ == old(self)@.after_unlink(m as int),
    {
        if m >= MAILBOX_MAX {
            return EINVAL;
        }
        let s = self.slots[m as usize];
        if !s.linked {
            return ENOTCONN;
        }
        self.slots[m as usize] = Slot { linked: false, ..s };
        self.queues[m as usize] = Vec::new();
        assert(self@.queues =~~= old(self)@.after_unlink(m as int).queues);
        0
    }

    fn push(&mut self, m: u32, sz: u32, buf: &Vec<u8>) -> (r: i32)
        requires
            old(self)@.wf(),
        ensures
            final(self)@.wf(),
            r == old(self)@.push_result(m as int, sz as int, buf@),
            final(self)@ == old(self)@.after_push(m as int, sz as int, buf@),
    {
        if m >= MAILBOX_MAX {
            return EINVAL;
        }
        if !self.slots[m as usize].linked {
            return ENOTCONN;
        }
        if sz > MAILBOX_MESSAGE_SIZE || sz as usize > buf.len() {
            return EMSGSIZE;
        }
        if self.queues[m as usize].len() >= MAILBOX_QUEUE_LENGTH {
            return ENOBUFS;
        }
        let msg = prefix(buf, sz as usize);
        self.queues[m as usize].push(msg);
        assert(self@.queues =~~= old(self)@.after_push(m as int, sz as int, buf@).queues);
        0
    }

    fn pop(&mut self, m: u32, sz: u32, buf: &mut Vec<u8>) -> (r: i32)
        requires
            old(self)@.wf(),
        ensures
            final(self)@.wf(),
            r == old(self)@.pop_result(m as int, sz as int),
            final(self)@ == old(self)@.after_pop(m as int, sz as int),
            final(buf)@ == old(self)@.popped(m as int, sz as int, old(buf)@),
    {
        if m >= MAILBOX_MAX {
            return EINVAL;
        }
        if !self.slots[m as usize].linked {
            return ENOTCONN;
        }
        if sz > 0x7FFF_FFFF {
            return EINVAL;
        }
        if self.queues[m as usize].len() == 0 {
            return EAGAIN;
        }
        if self.queues[m as usize][0].len() > sz as usize {
            return EMSGSIZE;
        }
        let msg = self.queues[m as usize].remove(0);
        *buf = msg;
        assert(self@.queues =~~= old(self)@.after_pop(m as int, sz as int).queues);
        0
    }

    fn frame_alloc(&mut self) -> (r: u32)
        requires
            old(self)@.wf(),
        ensures
            final(self)@.wf(),
            old(self)@.frame_alloc(final(self)@, r),
    {
        let mut i: u32 = 0;
        while i < USER_FRAME_COUNT
            invariant
                i <= USER_FRAME_COUNT,
                self@ == old(self)@,
                self@.wf(),
                forall|j: int| 0 <= j < i ==> #[trigger] self@.frames[j],
            decreases USER_FRAME_COUNT - i,
        {
            if !self.frames[i as usize] {
                self.frames[i as usize] = true;
                assert(self@.frames =~= old(self)@.frames.update(i as int, true));
                assert forall|k: int| 0 <= k < self@.mappings.len() implies self@.space_live(#[trigger] self@.mappings[k].space as int) by {
                    assert(old(self)@.space_live(old(self)@.mappings[k].space as int));
                }
                return USER_FRAME_BASE + i;
            }
            i = i + 1;
        }
        NULL_FRAME
    }

    fn frame_free(&mut self, f: u32) -> (r: i32)
        requires
            old(self)@.wf(),
        ensures
            final(self)@.wf(),
            r == old(self)@.frame_free_result(f as int),
            final(self)@ == old(self)@.after_frame_free(f as int),
    {
        if f < USER_FRAME_BASE || f - USER_FRAME_BASE >= USER_FRAME_COUNT {
            return EINVAL;
        }
        if !self.frames[(f - USER_FRAME_BASE) as usize] {
            return EINVAL;
        }
        self.frames[(f - USER_FRAME_BASE) as usize] = false;
        assert forall|k: int| 0 <= k < self@.mappings.len() implies self@.space_live(#[trigger] self@.mappings[k].space as int) by {
            assert(old(self)@.space_live(old(self)@.mappings[k].space as int));
        }
        0
    }

    fn vm_create(&mut self) -> (r: u32)
        requires
            old(self)@.wf(),
        ensures
            final(self)@.wf(),
            old(self)@.vm_create(final(self)@, r),
    {
        let mut i: u32 = 0;
        while i < VMEM_COUNT
            invariant
                i <= VMEM_COUNT,
                self@ == old(self)@,
                self@.wf(),
                forall|j: int| 0 <= j < i ==> #[trigger] self@.spaces[j],
            decreases VMEM_COUNT - i,
        {
            if !self.spaces[i as usize] {
                self.spaces[i as usize] = true;
                assert forall|k: int| 0 <= k < self@.mappings.len() implies self@.space_live(#[trigger] self@.mappings[k].space as int) by {
                    assert(old(self)@.space_live(old(self)@.mappings[k].space as int));
                }
                return i;
            }
            i = i + 1;
        }
        NULL_VMEM
    }

    fn vm_remove(&mut self, v: u32) -> (r: i32)
        requires
            old(self)@.wf(),
        ensures
            final(self)@.wf(),
            r == old(self)@.vm_remove_result(v as int),
            final(self)@ == old(self)@.after_vm_remove(v as int),
    {
        if v >= VMEM_COUNT || !self.spaces[v as usize] {
            return EINVAL;
        }
        let mut i: usize = 0;
        while i < self.mappings.len()
            invariant
                i <= self.mappings@.len(),
                self@ == old(self)@,
                old(self)@.wf(),
                old(self)@.space_live(v as int),
                forall|j: int| 0 <= j < i ==> #[trigger] self.mappings@[j].space != v,
            decreases self.mappings@.len() - i,
        {
            if self.mappings[i].space == v {
                assert(old(self)@.space_has_mappings(v as int)) by {
                    assert(old(self)@.mappings[i as int].space == v as int);
                }
                return EBUSY;
            }
            i = i + 1;
        }
        self.spaces[v as usize] = false;
        assert forall|k: int| 0 <= k < self@.mappings.len() implies self@.space_live(#[trigger] self@.mappings[k].space as int) by {
            assert(old(self)@.mappings[k].space != v);
            assert(old(self)@.space_live(old(self)@.mappings[k].space as int));
        }
        0
    }

    fn vm_map(&mut self, v: u32, vaddr: u32, f: u32) -> (r: i32)
        requires
            old(self)@.wf(),
        ensures
            final(self)@.wf(),
            r == old(self)@.vm_map_result(v as int, vaddr as int, f as int),
            final(self)@ == old(self)@.after_vm_map(v as int, vaddr as int, f as int),
    {
        if v >= VMEM_COUNT || !self.spaces[v as usize] {
            return EINVAL;
        }
        if vaddr < USER_BASE_ADDRESS || vaddr % PAGE_SIZE != 0 {
            return EINVAL;
        }
        if f < USER_FRAME_BASE || f - USER_FRAME_BASE >= USER_FRAME_COUNT
            || !self.frames[(f - USER_FRAME_BASE) as usize] {
            return EINVAL;
        }
        let mut i: usize = 0;
        while i < self.mappings.len()
            invariant
                i <= self.mappings@.len(),
                self@ == old(self)@,
                old(self)@.wf(),
                old(self)@.space_live(v as int),
                USER_BASE_ADDRESS <= vaddr && vaddr % PAGE_SIZE == 0,
                is_user_frame(f as int) && old(self)@.frames[f - USER_FRAME_BASE],
                forall|j: int| 0 <= j < i ==> !((#[trigger] self.mappings@[j]).space == v
                    && self.mappings@[j].vaddr == vaddr),
            decreases self.mappings@.len() - i,
        {
            if self.mappings[i].space == v && self.mappings[i].vaddr == vaddr {
                assert(old(self)@.is_mapped(v as int, vaddr as int)) by {
                    assert(old(self)@.mappings[i as int] == self.mappings@[i as int]);
                }
                return EBUSY;
            }
            i = i + 1;
        }
        self.mappings.push(Mapping { space: v, vaddr, frame: f });
        assert forall|k: int| 0 <= k < self@.mappings.len() implies self@.space_live(#[trigger] self@.mappings[k].space as int) by {
            if k < old(self)@.mappings.len() {
            assert(old(self)@.space_live(old(self)@.mappings[k].space as int));
            }
        }
        0
    }

    fn vm_unmap(&mut self, v: u32, vaddr: u32) -> (r: u32)
        requires
            old(self)@.wf(),
        ensures
            final(self)@.wf(),
            old(self)@.vm_unmap(v as int, vaddr as int, final(self)@, r),
    {
        if v >= VMEM_COUNT || !self.spaces[v as usize] {
            return EINVAL as u32;
        }
        let mut i: usize = 0;
        while i < self.mappings.len()
            invariant
                i <= self.mappings@.len(),
                self@ == old(self)@,
                old(self)@.wf(),
                self@.space_live(v as int),
                forall|j: int| 0 <= j < i ==> !((#[trigger] self.mappings@[j]).space == v
                    && self.mappings@[j].vaddr == vaddr),
            decreases self.mappings@.len() - i,
        {
            if self.mappings[i].space == v && self.mappings[i].vaddr == vaddr {
                let m = self.mappings.remove(i);
                assert forall|k: int| 0 <= k < self@.mappings.len() implies self@.space_live(#[trigger] self@.mappings[k].space as int) by {
                    if k < i {
                        assert(old(self)@.space_live(old(self)@.mappings[k].space as int));
                    } else {
                        assert(old(self)@.space_live(old(self)@.mappings[k + 1].space as int));
                    }
                }
                return m.frame;
            }
            i = i + 1;
        }
        EINVAL as u32
    }
}

/// Sum of the arguments, modulo 2^32.
fn sum_args(args: &Vec<u32>) -> (r: u32)
    ensures
        r == void_sum(args@),
{
    let mut acc: u32 = 0;
    let mut i: usize = 0;
    while i < args.len()
        invariant
            i <= args@.len(),
            acc == void_sum(args@.take(i as int)),
        decreases args@.len() - i,
    {
        assert(args@.take(i + 1).drop_last() =~= args@.take(i as int));
        acc = ((acc as u64 + args[i] as u64) % 0x1_0000_0000) as u32;
        i = i + 1;
    }
    assert(args@.take(args@.len() as int) =~= args@);
    acc
}

/// Releasing a frame twice is rejected the second time; in particular a
/// frame just handed out can be released once and only once.
pub proof fn lemma_double_free_rejected(s: KernelState, f: int, post: KernelState, r: u32)
    requires
        s.wf(),
    ensures
        s.frame_free_result(f) == 0 ==> s.after_frame_free(f).frame_free_result(f) < 0,
        s.frame_alloc(post, r) && r != NULL_FRAME ==> post.frame_free_result(r as int) == 0
            && post.after_frame_free(r as int).frame_free_result(r as int) < 0,
{
}

/// Operations on the null frame and the null space always fail and change
/// nothing, as do frame releases below user memory.
pub proof fn lemma_sentinels_rejected(s: KernelState, v: int, vaddr: int, f: int, post: KernelState, r: u32)
    requires
        s.wf(),
    ensures
        s.frame_free_result(NULL_FRAME as int) < 0,
        s.after_frame_free(NULL_FRAME as int) == s,
        f < USER_BASE_ADDRESS / PAGE_SIZE ==> s.frame_free_result(f) < 0,
        s.vm_remove_result(NULL_VMEM as int) < 0,
        s.after_vm_remove(NULL_VMEM as int) == s,
        s.vm_map_result(NULL_VMEM as int, vaddr, f) < 0,
        s.vm_map_result(v, vaddr, NULL_FRAME as int) < 0,
        s.vm_unmap(NULL_VMEM as int, vaddr, post, r) ==> post == s && r == EINVAL as u32,
{
}

} // verus!
