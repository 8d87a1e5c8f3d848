use libnanvix::kcall::{kcall0, kcall2, kcall3, kcall4, KcallNumber, KCALL_COUNT};
use libnanvix::logging::Logger;

const ALL: [KcallNumber; 21] = [
    KcallNumber::Void0,
    KcallNumber::Void1,
    KcallNumber::Void2,
    KcallNumber::Void3,
    KcallNumber::Void4,
    KcallNumber::Shutdown,
    KcallNumber::FrameAlloc,
    KcallNumber::FrameFree,
    KcallNumber::VmCreate,
    KcallNumber::VmRemove,
    KcallNumber::VmMap,
    KcallNumber::VmUnmap,
    KcallNumber::MbOwner,
    KcallNumber::MbAssign,
    KcallNumber::MbLink,
    KcallNumber::MbUnlink,
    KcallNumber::MbIsAssigned,
    KcallNumber::MbDefault,
    KcallNumber::MbTag,
    KcallNumber::MbPush,
    KcallNumber::MbPop,
];

#[test]
fn call_numbers_distinct_and_round_trip() {
    for (i, a) in ALL.iter().enumerate() {
        assert_eq!(a.number(), i as u32);
        assert_eq!(KcallNumber::from_number(a.number()), Some(*a));
        for b in ALL.iter() {
            assert_eq!(a.number() == b.number(), a == b);
        }
    }
    assert_ne!(KcallNumber::MbPush.number(), KcallNumber::MbPop.number());
    assert_ne!(KcallNumber::MbPush.number(), KcallNumber::MbAssign.number());
    assert_eq!(KcallNumber::from_number(KCALL_COUNT), None);
    assert_eq!(KcallNumber::from_number(u32::MAX), None);
}

#[test]
fn call_arities() {
    assert_eq!(KcallNumber::Shutdown.arity(), 0);
    assert_eq!(KcallNumber::MbOwner.arity(), 1);
    assert_eq!(KcallNumber::MbPush.arity(), 2);
    assert_eq!(KcallNumber::MbAssign.arity(), 3);
    assert_eq!(KcallNumber::Void4.arity(), 4);
}

#[test]
fn calls_marshal_arguments_in_order() {
    let c = kcall0(KcallNumber::FrameAlloc);
    assert_eq!(c.number, 6);
    assert!(c.args.is_empty());
    let c = kcall2(KcallNumber::MbPop, 5, 16);
    assert_eq!(c.number, 20);
    assert_eq!(c.args, vec![5, 16]);
    let c = kcall3(KcallNumber::MbAssign, 5, 42, 7);
    assert_eq!(c.number, 13);
    assert_eq!(c.args, vec![5, 42, 7]);
    let c = kcall4(KcallNumber::Void4, 1, 2, 3, 4);
    assert_eq!(c.args, vec![1, 2, 3, 4]);
}

#[test]
fn logger_line_has_prefix_and_one_terminator() {
    let mut l = Logger::get("ipc");
    l.write_str("hello");
    l.write_str(", world");
    assert_eq!(l.finish(), "[ipc] hello, world\n");
    assert_eq!(Logger::get("").finish(), "[] \n");
}
