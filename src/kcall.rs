//! Kernel-call numbers and the marshalling of a call into scalar registers.

use vstd::prelude::*;

verus! {

/// The closed set of operations that can cross the privilege boundary.
#[derive(Clone, Copy, Debug, PartialEq, Eq, Structural)]
pub enum KcallNumber {
    Void0,
    Void1,
    Void2,
    Void3,
    Void4,
    Shutdown,
    FrameAlloc,
    FrameFree,
    VmCreate,
    VmRemove,
    VmMap,
    VmUnmap,
    MbOwner,
    MbAssign,
    MbLink,
    MbUnlink,
    MbIsAssigned,
    MbDefault,
    MbTag,
    MbPush,
    MbPop,
}

/// Number of distinct kernel calls; wire numbers are `0 .. KCALL_COUNT`.
pub const KCALL_COUNT: u32 = 21;

impl KcallNumber {
    /// The integer that identifies the operation on the wire.
    pub open spec fn wire(self) -> u32 {
        match self {
            KcallNumber::Void0 => 0,
            KcallNumber::Void1 => 1,
            KcallNumber::Void2 => 2,
            KcallNumber::Void3 => 3,
            KcallNumber::Void4 => 4,
            KcallNumber::Shutdown => 5,
            KcallNumber::FrameAlloc => 6,
            KcallNumber::FrameFree => 7,
            KcallNumber::VmCreate => 8,
            KcallNumber::VmRemove => 9,
            KcallNumber::VmMap => 10,
            KcallNumber::VmUnmap => 11,
            KcallNumber::MbOwner => 12,
            KcallNumber::MbAssign => 13,
            KcallNumber::MbLink => 14,
            KcallNumber::MbUnlink => 15,
            KcallNumber::MbIsAssigned => 16,
            KcallNumber::MbDefault => 17,
            KcallNumber::MbTag => 18,
            KcallNumber::MbPush => 19,
            KcallNumber::MbPop => 20,
        }
    }

    /// How many scalar arguments the operation takes.
    pub open spec fn arity_spec(self) -> usize {
        match self {
            KcallNumber::Void1 | KcallNumber::FrameFree | KcallNumber::VmRemove
            | KcallNumber::MbOwner | KcallNumber::MbLink | KcallNumber::MbUnlink
            | KcallNumber::MbIsAssigned | KcallNumber::MbDefault | KcallNumber::MbTag => 1,
            KcallNumber::Void2 | KcallNumber::VmUnmap | KcallNumber::MbPush
            | KcallNumber::MbPop => 2,
            KcallNumber::Void3 | KcallNumber::VmMap | KcallNumber::MbAssign => 3,
            KcallNumber::Void4 => 4,
            _ => 0,
        }
    }

    /// Wire number of the operation.
    pub fn number(self) -> (r: u32)
        ensures
            r == self.wire(),
            r < KCALL_COUNT,
    {
        match self {
            KcallNumber::Void0 => 0,
            KcallNumber::Void1 => 1,
            KcallNumber::Void2 => 2,
            KcallNumber::Void3 => 3,
            KcallNumber::Void4 => 4,
            KcallNumber::Shutdown => 5,
            KcallNumber::FrameAlloc => 6,
            KcallNumber::FrameFree => 7,
            KcallNumber::VmCreate => 8,
            KcallNumber::VmRemove => 9,
            KcallNumber::VmMap => 10,
            KcallNumber::VmUnmap => 11,
            KcallNumber::MbOwner => 12,
            KcallNumber::MbAssign => 13,
            KcallNumber::MbLink => 14,
            KcallNumber::MbUnlink => 15,
            KcallNumber::MbIsAssigned => 16,
            KcallNumber::MbDefault => 17,
            KcallNumber::MbTag => 18,
            KcallNumber::MbPush => 19,
            KcallNumber::MbPop => 20,
        }
    }

    /// Number of scalar arguments the operation takes.
    pub fn arity(self) -> (r: usize)
        ensures
            r == self.arity_spec(),
            r <= 4,
    {
        match self {
            KcallNumber::Void1 | KcallNumber::FrameFree | KcallNumber::VmRemove
            | KcallNumber::MbOwner | KcallNumber::MbLink | KcallNumber::MbUnlink
            | KcallNumber::MbIsAssigned | KcallNumber::MbDefault | KcallNumber::MbTag => 1,
            KcallNumber::Void2 | KcallNumber::VmUnmap | KcallNumber::MbPush
            | KcallNumber::MbPop => 2,
            KcallNumber::Void3 | KcallNumber::VmMap | KcallNumber::MbAssign => 3,
            KcallNumber::Void4 => 4,
            _ => 0,
        }
    }

    /// Decodes a wire number; `None` when no operation carries it.
    pub fn from_number(n: u32) -> (r: Option<KcallNumber>)
        ensures
            r == decode(n),
            match r {
                Some(k) => k.wire() == n,
                None => forall|k: KcallNumber| #[trigger] k.wire() != n,
            },
            r is None <==> n >= KCALL_COUNT,
    {
        match n {
            0 => Some(KcallNumber::Void0),
            1 => Some(KcallNumber::Void1),
            2 => Some(KcallNumber::Void2),
            3 => Some(KcallNumber::Void3),
            4 => Some(KcallNumber::Void4),
            5 => Some(KcallNumber::Shutdown),
            6 => Some(KcallNumber::FrameAlloc),
            7 => Some(KcallNumber::FrameFree),
            8 => Some(KcallNumber::VmCreate),
            9 => Some(KcallNumber::VmRemove),
            10 => Some(KcallNumber::VmMap),
            11 => Some(KcallNumber::VmUnmap),
            12 => Some(KcallNumber::MbOwner),
            13 => Some(KcallNumber::MbAssign),
            14 => Some(KcallNumber::MbLink),
            15 => Some(KcallNumber::MbUnlink),
            16 => Some(KcallNumber::MbIsAssigned),
            17 => Some(KcallNumber::MbDefault),
            18 => Some(KcallNumber::MbTag),
            19 => Some(KcallNumber::MbPush),
            20 => Some(KcallNumber::MbPop),
            _ => {
                assert(forall|k: KcallNumber| #[trigger] k.wire() < KCALL_COUNT);
                None
            },
        }
    }
}

/// Distinct operations never share a wire number, so the kernel can always
/// tell them apart (in particular push, pop and assign).
pub proof fn lemma_wire_injective(a: KcallNumber, b: KcallNumber)
    ensures
        a.wire() == b.wire() <==> a == b,
{
}

/// Decoding the wire number of an operation gives that operation back.
pub proof fn lemma_wire_round_trip(k: KcallNumber)
    ensures
        decode(k.wire()) == Some(k),
        k.wire() < KCALL_COUNT,
{
}

/// The operation that a wire number names, if any.
pub open spec fn decode(n: u32) -> Option<KcallNumber> {
    if n == 0 { Some(KcallNumber::Void0) }
    else if n == 1 { Some(KcallNumber::Void1) }
    else if n == 2 { Some(KcallNumber::Void2) }
    else if n == 3 { Some(KcallNumber::Void3) }
    else if n == 4 { Some(KcallNumber::Void4) }
    else if n == 5 { Some(KcallNumber::Shutdown) }
    else if n == 6 { Some(KcallNumber::FrameAlloc) }
    else if n == 7 { Some(KcallNumber::FrameFree) }
    else if n == 8 { Some(KcallNumber::VmCreate) }
    else if n == 9 { Some(KcallNumber::VmRemove) }
    else if n == 10 { Some(KcallNumber::VmMap) }
    else if n == 11 { Some(KcallNumber::VmUnmap) }
    else if n == 12 { Some(KcallNumber::MbOwner) }
    else if n == 13 { Some(KcallNumber::MbAssign) }
    else if n == 14 { Some(KcallNumber::MbLink) }
    else if n == 15 { Some(KcallNumber::MbUnlink) }
    else if n == 16 { Some(KcallNumber::MbIsAssigned) }
    else if n == 17 { Some(KcallNumber::MbDefault) }
    else if n == 18 { Some(KcallNumber::MbTag) }
    else if n == 19 { Some(KcallNumber::MbPush) }
    else if n == 20 { Some(KcallNumber::MbPop) }
    else { None }
}

/// A kernel call as it crosses the boundary: a wire number and its positional
/// scalar arguments.
pub struct Kcall {
    pub number: u32,
    pub args: Vec<u32>,
}

impl Kcall {
    /// The call is well formed: its number names an operation and it carries
    /// exactly the arguments that operation declares.
    pub open spec fn wf(&self) -> bool {
        exists|k: KcallNumber| k.wire() == self.number && k.arity_spec() == self.args@.len()
    }

    /// The call encodes operation `k` with arguments `args`.
    pub open spec fn encodes(&self, k: KcallNumber, args: Seq<u32>) -> bool {
        self.number == k.wire() && self.args@ == args
    }
}

/// Builds a call with no argument.
pub fn kcall0(k: KcallNumber) -> (r: Kcall)
    requires
        k.arity_spec() == 0,
    ensures
        r.encodes(k, seq![]),
        r.wf(),
{
    Kcall { number: k.number(), args: Vec::new() }
}

/// Builds a call with one argument.
pub fn kcall1(k: KcallNumber, a0: u32) -> (r: Kcall)
    requires
        k.arity_spec() == 1,
    ensures
        r.encodes(k, seq![a0]),
        r.wf(),
{
    let mut args: Vec<u32> = Vec::new();
    args.push(a0);
    let r = Kcall { number: k.number(), args };
    assert(r.args@ =~= seq![a0]);
    r
}

/// Builds a call with two arguments.
pub fn kcall2(k: KcallNumber, a0: u32, a1: u32) -> (r: Kcall)
    requires
        k.arity_spec() == 2,
    ensures
        r.encodes(k, seq![a0, a1]),
        r.wf(),
{
    let mut args: Vec<u32> = Vec::new();
    args.push(a0);
    args.push(a1);
    let r = Kcall { number: k.number(), args };
    assert(r.args@ =~= seq![a0, a1]);
    r
}

/// Builds a call with three arguments.
pub fn kcall3(k: KcallNumber, a0: u32, a1: u32, a2: u32) -> (r: Kcall)
    requires
        k.arity_spec() == 3,
    ensures
        r.encodes(k, seq![a0, a1, a2]),
        r.wf(),
{
    let mut args: Vec<u32> = Vec::new();
    args.push(a0);
    args.push(a1);
    args.push(a2);
    let r = Kcall { number: k.number(), args };
    assert(r.args@ =~= seq![a0, a1, a2]);
    r
}

/// Builds a call with four arguments.
pub fn kcall4(k: KcallNumber, a0: u32, a1: u32, a2: u32, a3: u32) -> (r: Kcall)
    requires
        k.arity_spec() == 4,
    ensures
        r.encodes(k, seq![a0, a1, a2, a3]),
        r.wf(),
{
    let mut args: Vec<u32> = Vec::new();
    args.push(a0);
    args.push(a1);
    args.push(a2);
    args.push(a3);
    let r = Kcall { number: k.number(), args };
    assert(r.args@ =~= seq![a0, a1, a2, a3]);
    r
}

} // verus!
