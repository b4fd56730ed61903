use io_uring::linux_io_uring::{
    submit_and_wait_args, AvailableQueue, Entry, Fd, Fsync, Nop, PollAdd, PollRemove, ReadFixed, Readv, RecvMsg,
    SendMsg, SyncFileRange, WriteFixed, Writev, FIXED_FILE, IO_DRAIN, IO_LINK,
};
use io_uring::submit::EnterArgs;
use io_uring::sys;
use io_uring::types::Target;

#[test]
fn entry_setters() {
    let e = Entry::from(Nop).flags(IO_LINK).flags(IO_DRAIN).ioprio(3).user_data(77);
    assert_eq!(e.0.opcode, sys::IORING_OP_NOP);
    assert_eq!(e.0.fd, 0);
    assert_eq!(e.0.flags, IO_LINK | IO_DRAIN);
    assert_eq!((e.0.ioprio, e.0.user_data), (3, 77));
}

#[test]
fn fd_must_not_be_negative() {
    assert!(Fd::try_from(-1).is_err());
    assert_eq!(Fd::try_from(0).unwrap().as_raw_fd(), 0);
    assert_eq!(Fd::try_from(9).unwrap().as_raw_fd(), 9);
}

#[test]
fn available_queue_hands_out_slots_until_full() {
    let mut q = AvailableQueue::new(6, 6, 3, 4);
    assert_eq!(q.len(), 0);
    assert!(!q.is_full());
    let slots: Vec<u32> = (0..4).map(|i| q.push(Entry::from(Nop).user_data(i)).ok().unwrap()).collect();
    assert_eq!(slots, vec![2, 3, 0, 1]);
    assert_eq!(q.len(), 4);
    assert!(q.is_full());
    assert_eq!(q.tail(), 10);
    let back = q.push(Entry::from(Nop).user_data(9)).err().unwrap();
    assert_eq!(back.0.user_data, 9);
    assert_eq!(q.tail(), 10);
    assert_eq!(q.head(), 6);
}

#[test]
fn available_queue_full_across_wrap() {
    let q = AvailableQueue::new(u32::MAX - 1, 2, 7, 4);
    assert!(q.is_full());
    let q = AvailableQueue::new(u32::MAX - 1, 1, 7, 4);
    assert!(!q.is_full());
}

#[test]
fn submit_waits_for_at_most_what_it_submits() {
    assert_eq!(submit_and_wait_args(3, 5), EnterArgs { to_submit: 3, min_complete: 3, flags: 0 });
    assert_eq!(submit_and_wait_args(3, 2), EnterArgs { to_submit: 3, min_complete: 2, flags: 0 });
    assert_eq!(submit_and_wait_args(0, 0), EnterArgs { to_submit: 0, min_complete: 0, flags: 0 });
}

#[test]
fn vectored_and_fixed_operations() {
    let r = Readv::default();
    assert_eq!(r.fd, Target::Fd(-1));
    let e = Entry::from(Readv { fd: Target::Fixed(2), iovec: 0x100, len: 3, offset: -1, rw_flags: 4 });
    assert_eq!((e.0.opcode, e.0.fd, e.0.flags), (sys::IORING_OP_READV, 2, FIXED_FILE));
    assert_eq!((e.0.addr, e.0.len, e.0.off, e.0.op_flags), (0x100, 3, u64::MAX, 4));
    let e = Entry::from(Writev { fd: Target::Fd(5), ..Writev::default() });
    assert_eq!((e.0.opcode, e.0.fd, e.0.flags), (sys::IORING_OP_WRITEV, 5, 0));
    let e = Entry::from(ReadFixed { buf_index: 7, buf: 0x200, ..ReadFixed::default() });
    assert_eq!((e.0.opcode, e.0.fd, e.0.buf_index, e.0.addr), (sys::IORING_OP_READ_FIXED, -1, 7, 0x200));
    let e = Entry::from(WriteFixed { buf_index: 1, len: 9, ..WriteFixed::default() });
    assert_eq!((e.0.opcode, e.0.buf_index, e.0.len), (sys::IORING_OP_WRITE_FIXED, 1, 9));
}

#[test]
fn sync_poll_and_message_operations() {
    let e = Entry::from(Fsync { fd: Target::Fd(3), flags: 1 });
    assert_eq!((e.0.opcode, e.0.fd, e.0.op_flags), (sys::IORING_OP_FSYNC, 3, 1));
    let e = Entry::from(SyncFileRange { fd: Target::Fd(3), len: 10, offset: 20, flags: 2 });
    assert_eq!((e.0.opcode, e.0.len, e.0.off, e.0.op_flags), (sys::IORING_OP_SYNC_FILE_RANGE, 10, 20, 2));
    let e = Entry::from(PollRemove { user_data: 0x55 });
    assert_eq!((e.0.opcode, e.0.addr), (sys::IORING_OP_POLL_REMOVE, 0x55));
    let e = Entry::from(PollAdd { fd: Target::Fd(4), mask: 1 });
    assert_eq!(e.0.opcode, sys::IORING_OP_POLL_ADD);
    if u32::from_ne_bytes([1, 0, 0, 0]) == 1 {
        assert_eq!(e.0.op_flags, 1);
    } else {
        assert_eq!(e.0.op_flags, 1 << 16);
    }
    let e = Entry::from(SendMsg { fd: Target::Fd(6), msg: 0x300, flags: 8 });
    assert_eq!((e.0.opcode, e.0.addr, e.0.len, e.0.op_flags), (sys::IORING_OP_SENDMSG, 0x300, 1, 8));
    let e = Entry::from(RecvMsg { fd: Target::Fixed(1), msg: 0x400, flags: 0 });
    assert_eq!((e.0.opcode, e.0.fd, e.0.flags, e.0.len), (sys::IORING_OP_RECVMSG, 1, FIXED_FILE, 1));
}
