use libnanvix::ipc::{
    check_status, mailbox_assign, mailbox_default, mailbox_is_assigned, mailbox_link, mailbox_owner,
    mailbox_pop, mailbox_push, mailbox_tag, mailbox_unlink,
};
use libnanvix::kernel::{
    Kernel, EAGAIN, EBUSY, EINVAL, EMSGSIZE, ENOBUFS, ENOENT, ENOTCONN, MAILBOX_DEFAULT_TAG,
    MAILBOX_MAX, MAILBOX_MESSAGE_SIZE, MAILBOX_QUEUE_LENGTH,
};

#[test]
fn session_scenario() {
    let mut k = Kernel::new();
    assert_eq!(mailbox_assign(&mut k, 5, 42, 7), 0);
    assert_eq!(mailbox_tag(&mut k, 5), 7);
    assert_eq!(mailbox_owner(&mut k, 5), 42);
    assert_eq!(mailbox_link(&mut k, 5), 0);
    let payload: Vec<u8> = (0u8..16).collect();
    assert_eq!(mailbox_push(&mut k, 5, &payload, 16), 0);
    let mut buffer: Vec<u8> = Vec::new();
    assert_eq!(mailbox_pop(&mut k, 5, &mut buffer, 16), 0);
    assert_eq!(buffer, payload);
    assert_eq!(mailbox_unlink(&mut k, 5), 0);
    // The assignment outlives the session.
    assert_eq!(mailbox_tag(&mut k, 5), 7);
    assert_eq!(mailbox_owner(&mut k, 5), 42);
}

#[test]
fn out_of_range_ids_rejected() {
    let mut k = Kernel::new();
    for m in [-1i32, -256, i32::MIN, MAILBOX_MAX as i32, 1000, i32::MAX] {
        assert!(mailbox_owner(&mut k, m) < 0);
        assert!(mailbox_is_assigned(&mut k, m) < 0);
        assert!(mailbox_default(&mut k, m) < 0);
        assert!(mailbox_tag(&mut k, m) < 0);
        assert!(mailbox_assign(&mut k, m, 1, 1) < 0);
        assert!(mailbox_link(&mut k, m) < 0);
        assert!(mailbox_unlink(&mut k, m) < 0);
        assert!(mailbox_push(&mut k, m, &vec![1, 2], 2) < 0);
        let mut buf = vec![9u8];
        assert!(mailbox_pop(&mut k, m, &mut buf, 2) < 0);
        assert_eq!(buf, vec![9u8]);
    }
    assert_eq!(mailbox_owner(&mut k, -1), EINVAL);
    assert_eq!(mailbox_owner(&mut k, 256), EINVAL);
    // Highest valid id works.
    assert_eq!(mailbox_assign(&mut k, 255, 1, 2), 0);
    assert_eq!(mailbox_owner(&mut k, 255), 1);
}

#[test]
fn unassigned_has_no_owner_or_tag() {
    let mut k = Kernel::new();
    assert_eq!(mailbox_owner(&mut k, 0), ENOENT);
    assert_eq!(mailbox_tag(&mut k, 0), ENOENT);
    assert_eq!(mailbox_is_assigned(&mut k, 0), 0);
    assert_eq!(mailbox_default(&mut k, 0), MAILBOX_DEFAULT_TAG);
    assert_eq!(mailbox_assign(&mut k, 0, 3, 4), 0);
    assert_eq!(mailbox_is_assigned(&mut k, 0), 1);
    assert_eq!(mailbox_owner(&mut k, 1), ENOENT);
}

#[test]
fn assign_rejects_bad_owner_tag_and_reassignment() {
    let mut k = Kernel::new();
    assert_eq!(mailbox_assign(&mut k, 3, -1, 0), EINVAL);
    assert_eq!(mailbox_assign(&mut k, 3, 0, -5), EINVAL);
    assert_eq!(mailbox_is_assigned(&mut k, 3), 0);
    assert_eq!(mailbox_assign(&mut k, 3, 0, 0), 0);
    assert_eq!(mailbox_assign(&mut k, 3, 9, 9), EBUSY);
    assert_eq!(mailbox_owner(&mut k, 3), 0);
    assert_eq!(mailbox_tag(&mut k, 3), 0);
}

#[test]
fn link_twice_rejected() {
    let mut k = Kernel::new();
    assert_eq!(mailbox_link(&mut k, 8), ENOENT);
    assert_eq!(mailbox_assign(&mut k, 8, 1, 1), 0);
    assert_eq!(mailbox_link(&mut k, 8), 0);
    assert_eq!(mailbox_link(&mut k, 8), EBUSY);
    assert_eq!(mailbox_unlink(&mut k, 8), 0);
    assert_eq!(mailbox_link(&mut k, 8), 0);
}

#[test]
fn unlink_without_link_rejected() {
    let mut k = Kernel::new();
    assert_eq!(mailbox_unlink(&mut k, 2), ENOTCONN);
    assert_eq!(mailbox_assign(&mut k, 2, 1, 1), 0);
    assert_eq!(mailbox_unlink(&mut k, 2), ENOTCONN);
    assert_eq!(mailbox_link(&mut k, 2), 0);
    assert_eq!(mailbox_unlink(&mut k, 2), 0);
    assert_eq!(mailbox_unlink(&mut k, 2), ENOTCONN);
}

#[test]
fn push_pop_need_link() {
    let mut k = Kernel::new();
    let mut buf = vec![7u8, 7];
    assert_eq!(mailbox_push(&mut k, 4, &vec![1], 1), ENOTCONN);
    assert_eq!(mailbox_pop(&mut k, 4, &mut buf, 8), ENOTCONN);
    assert_eq!(mailbox_assign(&mut k, 4, 1, 1), 0);
    assert_eq!(mailbox_push(&mut k, 4, &vec![1], 1), ENOTCONN);
    assert_eq!(mailbox_pop(&mut k, 4, &mut buf, 8), ENOTCONN);
    assert_eq!(buf, vec![7u8, 7]);
}

#[test]
fn messages_come_out_in_order() {
    let mut k = Kernel::new();
    assert_eq!(mailbox_assign(&mut k, 1, 1, 1), 0);
    assert_eq!(mailbox_link(&mut k, 1), 0);
    assert_eq!(mailbox_push(&mut k, 1, &vec![1, 2, 3], 3), 0);
    assert_eq!(mailbox_push(&mut k, 1, &vec![4, 5, 6], 2), 0);
    let mut buf = Vec::new();
    assert_eq!(mailbox_pop(&mut k, 1, &mut buf, 3), 0);
    assert_eq!(buf, vec![1, 2, 3]);
    assert_eq!(mailbox_pop(&mut k, 1, &mut buf, 3), 0);
    assert_eq!(buf, vec![4, 5]);
    assert_eq!(mailbox_pop(&mut k, 1, &mut buf, 3), EAGAIN);
    assert_eq!(buf, vec![4, 5]);
}

#[test]
fn message_size_limits() {
    let mut k = Kernel::new();
    assert_eq!(mailbox_assign(&mut k, 6, 1, 1), 0);
    assert_eq!(mailbox_link(&mut k, 6), 0);
    let big = vec![0u8; MAILBOX_MESSAGE_SIZE as usize + 1];
    assert_eq!(mailbox_push(&mut k, 6, &big, MAILBOX_MESSAGE_SIZE as i32 + 1), EMSGSIZE);
    assert_eq!(mailbox_push(&mut k, 6, &vec![1, 2], 3), EMSGSIZE);
    assert_eq!(mailbox_push(&mut k, 6, &vec![1, 2], -1), EMSGSIZE);
    assert_eq!(mailbox_push(&mut k, 6, &big, MAILBOX_MESSAGE_SIZE as i32), 0);
    let mut buf = Vec::new();
    assert_eq!(mailbox_pop(&mut k, 6, &mut buf, -1), EINVAL);
    assert_eq!(mailbox_pop(&mut k, 6, &mut buf, 10), EMSGSIZE);
    assert!(buf.is_empty());
    assert_eq!(mailbox_pop(&mut k, 6, &mut buf, MAILBOX_MESSAGE_SIZE as i32), 0);
    assert_eq!(buf.len(), MAILBOX_MESSAGE_SIZE as usize);
}

#[test]
fn queue_full_rejected() {
    let mut k = Kernel::new();
    assert_eq!(mailbox_assign(&mut k, 9, 1, 1), 0);
    assert_eq!(mailbox_link(&mut k, 9), 0);
    for i in 0..MAILBOX_QUEUE_LENGTH {
        assert_eq!(mailbox_push(&mut k, 9, &vec![i as u8], 1), 0);
    }
    assert_eq!(mailbox_push(&mut k, 9, &vec![99], 1), ENOBUFS);
    let mut buf = Vec::new();
    assert_eq!(mailbox_pop(&mut k, 9, &mut buf, 1), 0);
    assert_eq!(buf, vec![0]);
    assert_eq!(mailbox_push(&mut k, 9, &vec![99], 1), 0);
}

#[test]
fn unlink_drops_waiting_messages() {
    let mut k = Kernel::new();
    assert_eq!(mailbox_assign(&mut k, 10, 1, 1), 0);
    assert_eq!(mailbox_link(&mut k, 10), 0);
    assert_eq!(mailbox_push(&mut k, 10, &vec![1], 1), 0);
    assert_eq!(mailbox_unlink(&mut k, 10), 0);
    assert_eq!(mailbox_link(&mut k, 10), 0);
    let mut buf = Vec::new();
    assert_eq!(mailbox_pop(&mut k, 10, &mut buf, 1), EAGAIN);
}

#[test]
fn status_is_typed_unchanged() {
    assert_eq!(check_status(0), Ok(0));
    assert_eq!(check_status(42), Ok(42));
    assert_eq!(check_status(EINVAL), Err(-22));
    assert_eq!(check_status(-1), Err(-1));
}
