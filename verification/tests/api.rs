use io_uring::buf_ring::{self, BufRing};
use io_uring::harness::{queue_tasks, TaskQueue};
use io_uring::opcode::{poll_mask_word, Nop, OpenAt2, PollAdd, Read, Splice, Timeout};
use io_uring::register::{Probe, ProbeOp, Restriction};
use io_uring::squeue::{Entry, SubmissionQueue};
use io_uring::submit::{self, EnterArgs, SubmitAction};
use io_uring::sys::{self, IoUringParams};
use io_uring::types::{
    BufRingEntry, CancelBuilder, DestinationSlot, Fd, Fixed, FutexWaitV, MsgHdr, OpenHow, RecvMsgOut, SubmitArgs,
    Timespec,
};
use io_uring::{memory_layout, Builder, Parameters};

fn params_with(flags: u32, features: u32) -> Parameters {
    let mut p = IoUringParams::zeroed();
    p.flags = flags;
    p.features = features;
    p.sq_entries = 4;
    p.cq_entries = 8;
    Parameters::new(p)
}

#[test]
fn builder_collects_setup_flags() {
    let mut b = Builder::default();
    assert!(!b.is_dontfork());
    assert_eq!(b.params().flags, 0);
    b.dontfork().setup_sqpoll(1000).setup_sqpoll_cpu(3).setup_cqsize(64).setup_clamp();
    let p = b.params();
    assert!(b.is_dontfork());
    assert_eq!(
        p.flags,
        sys::IORING_SETUP_SQPOLL | sys::IORING_SETUP_SQ_AFF | sys::IORING_SETUP_CQSIZE | sys::IORING_SETUP_CLAMP
    );
    assert_eq!(p.sq_thread_idle, 1000);
    assert_eq!(p.sq_thread_cpu, 3);
    assert_eq!(p.cq_entries, 64);
}

#[test]
fn builder_other_setup_flags() {
    let mut b = Builder::default();
    b.setup_iopoll().setup_r_disabled().setup_attach_wq(7);
    let p = b.params();
    assert_eq!(p.flags, sys::IORING_SETUP_IOPOLL | sys::IORING_SETUP_R_DISABLED | sys::IORING_SETUP_ATTACH_WQ);
    assert_eq!(p.wq_fd, 7);
}

#[test]
fn parameters_report_flags_and_features() {
    let p = params_with(
        sys::IORING_SETUP_SQPOLL,
        sys::IORING_FEAT_SINGLE_MMAP | sys::IORING_FEAT_NODROP | sys::IORING_FEAT_EXT_ARG,
    );
    assert!(p.is_setup_sqpoll());
    assert!(!p.is_setup_iopoll());
    assert!(p.is_feature_single_mmap());
    assert!(p.is_feature_nodrop());
    assert!(!p.is_feature_submit_stable());
    assert!(!p.is_feature_rw_cur_pos());
    assert!(!p.is_feature_cur_personality());
    assert!(!p.is_feature_fast_poll());
    assert!(!p.is_feature_poll_32bits());
    assert!(!p.is_feature_sqpoll_nonfixed());
    assert!(p.is_feature_ext_arg());
    assert_eq!(p.sq_entries(), 4);
    assert_eq!(p.cq_entries(), 8);
    let q = params_with(
        sys::IORING_SETUP_IOPOLL,
        sys::IORING_FEAT_SUBMIT_STABLE
            | sys::IORING_FEAT_RW_CUR_POS
            | sys::IORING_FEAT_CUR_PERSONALITY
            | sys::IORING_FEAT_FAST_POLL
            | sys::IORING_FEAT_POLL_32BITS
            | sys::IORING_FEAT_SQPOLL_NONFIXED,
    );
    assert!(q.is_setup_iopoll());
    assert!(!q.is_setup_sqpoll());
    assert!(!q.is_feature_single_mmap());
    assert!(q.is_feature_submit_stable());
    assert!(q.is_feature_rw_cur_pos());
    assert!(q.is_feature_cur_personality());
    assert!(q.is_feature_fast_poll());
    assert!(q.is_feature_poll_32bits());
    assert!(q.is_feature_sqpoll_nonfixed());
    assert!(!q.is_feature_ext_arg());
}

#[test]
fn memory_layout_of_separate_and_shared_rings() {
    let mut p = IoUringParams::zeroed();
    p.sq_entries = 4;
    p.cq_entries = 8;
    p.sq_off.array = 64;
    p.cq_off.cqes = 64;
    let layout = memory_layout(&p);
    assert_eq!(layout.sqe.offset, sys::IORING_OFF_SQES);
    assert_eq!(layout.sqe.len, 4 * 64);
    assert_eq!(layout.sq.offset, sys::IORING_OFF_SQ_RING);
    assert_eq!(layout.sq.len, 64 + 4 * 4);
    let cq = layout.cq.expect("separate completion mapping");
    assert_eq!(cq.offset, sys::IORING_OFF_CQ_RING);
    assert_eq!(cq.len, 64 + 8 * 16);

    p.features = sys::IORING_FEAT_SINGLE_MMAP;
    let shared = memory_layout(&p);
    assert_eq!(shared.sq.offset, sys::IORING_OFF_SQ_RING);
    assert_eq!(shared.sq.len, 64 + 8 * 16);
    assert!(shared.cq.is_none());

    p.sq_entries = 64;
    let shared = memory_layout(&p);
    assert_eq!(shared.sq.len, 64 + 64 * 4);
    assert_eq!(shared.sqe.len, 64 * 64);
}

#[test]
fn submit_enters_without_polling() {
    let p = params_with(0, 0);
    assert_eq!(
        submit::submit_and_wait_plan(&p, 3, 0, false, false),
        SubmitAction::Enter(EnterArgs { to_submit: 3, min_complete: 0, flags: 0 })
    );
    assert_eq!(
        submit::submit_and_wait_plan(&p, 3, 2, false, false),
        SubmitAction::Enter(EnterArgs { to_submit: 3, min_complete: 2, flags: sys::IORING_ENTER_GETEVENTS })
    );
    assert_eq!(
        submit::submit_and_wait_plan(&p, 0, 0, true, false),
        SubmitAction::Enter(EnterArgs { to_submit: 0, min_complete: 0, flags: sys::IORING_ENTER_GETEVENTS })
    );
    assert_eq!(
        submit::submit_with_args_plan(&p, 1, 1, false, false),
        SubmitAction::Enter(EnterArgs {
            to_submit: 1,
            min_complete: 1,
            flags: sys::IORING_ENTER_EXT_ARG | sys::IORING_ENTER_GETEVENTS,
        })
    );
}

#[test]
fn submit_with_iopoll_reaps_events() {
    let p = params_with(sys::IORING_SETUP_IOPOLL, 0);
    assert_eq!(
        submit::submit_and_wait_plan(&p, 5, 0, false, false),
        SubmitAction::Enter(EnterArgs { to_submit: 5, min_complete: 0, flags: sys::IORING_ENTER_GETEVENTS })
    );
}

#[test]
fn submit_with_sqpoll_skips_or_wakes() {
    let p = params_with(sys::IORING_SETUP_SQPOLL, 0);
    assert_eq!(submit::submit_and_wait_plan(&p, 3, 0, false, false), SubmitAction::Done(3));
    assert_eq!(
        submit::submit_and_wait_plan(&p, 3, 0, false, true),
        SubmitAction::Enter(EnterArgs { to_submit: 3, min_complete: 0, flags: sys::IORING_ENTER_SQ_WAKEUP })
    );
    assert_eq!(
        submit::submit_and_wait_plan(&p, 3, 1, false, false),
        SubmitAction::Enter(EnterArgs { to_submit: 3, min_complete: 1, flags: sys::IORING_ENTER_GETEVENTS })
    );
    assert_eq!(
        submit::submit_with_args_plan(&p, 2, 1, true, true),
        SubmitAction::Enter(EnterArgs {
            to_submit: 2,
            min_complete: 1,
            flags: sys::IORING_ENTER_EXT_ARG | sys::IORING_ENTER_GETEVENTS | sys::IORING_ENTER_SQ_WAKEUP,
        })
    );
}

#[test]
fn submission_length_wraps() {
    assert_eq!(submit::sq_len(5, 9), 4);
    assert_eq!(submit::sq_len(u32::MAX, 2), 3);
    assert_eq!(submit::sq_len(7, 7), 0);
}

#[test]
fn register_arguments() {
    assert_eq!(
        submit::squeue_wait_args(),
        EnterArgs { to_submit: 0, min_complete: 0, flags: sys::IORING_ENTER_SQ_WAIT }
    );
    let r = submit::register_files_sparse_arg(16);
    assert_eq!((r.nr, r.flags, r.resv2, r.data, r.tags), (16, sys::IORING_RSRC_REGISTER_SPARSE, 0, 0, 0));
    let u = submit::register_files_update_arg(3, 0x1000);
    assert_eq!((u.offset, u.resv, u.fds), (3, 0, 0x1000));
    assert_eq!(submit::personality_id(0x0001_0005), 5);
    assert_eq!(submit::personality_id(42), 42);
    let reg = buf_ring::register_arg(0x2000, 8, 3);
    assert_eq!((reg.ring_addr, reg.ring_entries, reg.bgid), (0x2000, 8, 3));
    let unreg = buf_ring::unregister_arg(3);
    assert_eq!((unreg.ring_addr, unreg.ring_entries, unreg.bgid), (0, 0, 3));
}

#[test]
fn sync_cancel_arguments() {
    let by_data = submit::register_sync_cancel_arg(None, &CancelBuilder::user_data(42).all());
    assert_eq!(by_data.addr, 42);
    assert_eq!(by_data.fd, -1);
    assert_eq!(by_data.flags, sys::IORING_ASYNC_CANCEL_ALL);
    assert_eq!((by_data.timeout.tv_sec(), by_data.timeout.tv_nsec()), (-1, -1));

    let ts = Timespec::new().sec(2).nsec(500);
    let by_fd = submit::register_sync_cancel_arg(Some(ts), &CancelBuilder::fd(Fixed(3)));
    assert_eq!(by_fd.addr, 0);
    assert_eq!(by_fd.fd, 3);
    assert_eq!(by_fd.flags, sys::IORING_ASYNC_CANCEL_FD | sys::IORING_ASYNC_CANCEL_FD_FIXED);
    assert_eq!((by_fd.timeout.tv_sec(), by_fd.timeout.tv_nsec()), (2, 500));

    let any = submit::register_sync_cancel_arg(None, &CancelBuilder::any());
    assert_eq!((any.addr, any.fd, any.flags), (0, -1, sys::IORING_ASYNC_CANCEL_ANY));
}

fn recvmsg_buffer(namelen: u32, controllen: u32, payloadlen: u32, flags: u32, rest: &[u8]) -> Vec<u8> {
    let mut buf = Vec::new();
    buf.extend_from_slice(&namelen.to_ne_bytes());
    buf.extend_from_slice(&controllen.to_ne_bytes());
    buf.extend_from_slice(&payloadlen.to_ne_bytes());
    buf.extend_from_slice(&flags.to_ne_bytes());
    buf.extend_from_slice(rest);
    buf
}

#[test]
fn recvmsg_out_lays_out_the_buffer() {
    let buf = recvmsg_buffer(4, 1, 5, libc::MSG_TRUNC as u32, &[1, 2, 10, 11, 12, 20, 21, 22, 23]);
    let hdr = MsgHdr { msg_namelen: 2, msg_controllen: 3 };
    let out = RecvMsgOut::parse(&buf, &hdr).expect("buffer fits");
    assert_eq!(out.incoming_name_len(), 4);
    assert!(out.is_name_data_truncated());
    assert_eq!(out.name_data(), &[1, 2]);
    assert_eq!(out.incoming_control_len(), 1);
    assert!(!out.is_control_data_truncated());
    assert_eq!(out.control_data(), &[10]);
    assert_eq!(out.incoming_payload_len(), 5);
    assert!(out.is_payload_truncated());
    assert_eq!(out.payload_data(), &[20, 21, 22, 23]);
    assert_eq!(out.flags(), libc::MSG_TRUNC as u32);
}

#[test]
fn recvmsg_out_control_truncation_flag() {
    let buf = recvmsg_buffer(0, 9, 1, libc::MSG_CTRUNC as u32, &[30, 31, 40]);
    let hdr = MsgHdr { msg_namelen: 0, msg_controllen: 2 };
    let out = RecvMsgOut::parse(&buf, &hdr).expect("buffer fits");
    assert!(out.is_control_data_truncated());
    assert!(!out.is_payload_truncated());
    assert!(!out.is_name_data_truncated());
    assert_eq!(out.name_data(), &[] as &[u8]);
    assert_eq!(out.control_data(), &[30, 31]);
    assert_eq!(out.payload_data(), &[40]);
}

#[test]
fn recvmsg_out_rejects_short_buffers() {
    let buf = recvmsg_buffer(0, 0, 0, 0, &[0, 0]);
    assert!(RecvMsgOut::parse(&buf, &MsgHdr { msg_namelen: 2, msg_controllen: 1 }).is_err());
    assert!(RecvMsgOut::parse(&buf[..15], &MsgHdr { msg_namelen: 0, msg_controllen: 0 }).is_err());
    assert!(RecvMsgOut::parse(&buf, &MsgHdr { msg_namelen: 2, msg_controllen: 0 }).is_ok());
    assert!(RecvMsgOut::parse(&buf, &MsgHdr { msg_namelen: 0, msg_controllen: usize::MAX }).is_err());
}

#[test]
fn destination_slots() {
    assert_eq!(DestinationSlot::auto_target().kernel_index_arg(), sys::IORING_FILE_INDEX_ALLOC);
    assert_eq!(DestinationSlot::try_from_slot_target(0).unwrap().kernel_index_arg(), 1);
    assert_eq!(DestinationSlot::try_from_slot_target(u32::MAX - 2).unwrap().kernel_index_arg(), u32::MAX - 1);
    assert_eq!(DestinationSlot::try_from_slot_target(u32::MAX - 1), Err(u32::MAX - 1));
    assert_eq!(DestinationSlot::try_from_slot_target(u32::MAX), Err(u32::MAX));
}

#[test]
fn buf_ring_needs_a_power_of_two() {
    assert!(BufRing::new(0, 1).is_none());
    assert!(BufRing::new(3, 1).is_none());
    assert!(BufRing::new(6, 1).is_none());
    let ring = BufRing::new(4, 9).expect("power of two");
    assert_eq!(ring.capacity(), 4);
    assert_eq!(ring.bgid(), 9);
    assert_eq!(ring.tail(), 0);
    assert!(ring.entries().iter().all(|e| e.addr() == 0 && e.len() == 0 && e.bid() == 0 && e.resv() == 0));
}

#[test]
fn buf_ring_push_fills_slots_from_the_tail() {
    let mut ring = BufRing::new(4, 1).unwrap();
    ring.push(7, 0x1000, 4096);
    assert_eq!(ring.tail(), 1);
    let e = ring.entries()[0];
    assert_eq!((e.addr(), e.len(), e.bid()), (0x1000, 4096, 7));
    ring.push_multiple(&[(8, 0x2000, 16), (9, 0x3000, 32), (10, 0x4000, 64), (11, 0x5000, 128)]);
    assert_eq!(ring.tail(), 5);
    let e = ring.entries()[0];
    assert_eq!((e.addr(), e.len(), e.bid(), e.resv()), (0x5000, 128, 11, 5));
    let e = ring.entries()[3];
    assert_eq!((e.addr(), e.len(), e.bid()), (0x4000, 64, 10));
}

#[test]
fn buf_ring_tail_wraps_at_u16() {
    let mut ring = BufRing::new(2, 1).unwrap();
    let bufs: Vec<(u16, u64, usize)> = (0..u16::MAX).map(|i| (i, 0, 1)).collect();
    ring.push_multiple(&bufs);
    assert_eq!(ring.tail(), u16::MAX);
    ring.push(1, 0x10, 1);
    assert_eq!(ring.tail(), 0);
    ring.push(2, 0x20, 2);
    assert_eq!(ring.tail(), 1);
    let e = ring.entries()[0];
    assert_eq!((e.addr(), e.len(), e.bid()), (0x20, 2, 2));
}

#[test]
fn buf_ring_entry_accessors() {
    let mut e = BufRingEntry::zeroed();
    e.set_addr(0xdead);
    e.set_len(12);
    e.set_bid(3);
    e.set_resv(9);
    assert_eq!((e.addr(), e.len(), e.bid(), e.resv()), (0xdead, 12, 3, 9));
}

#[test]
fn probe_reports_supported_opcodes() {
    let empty = Probe::new();
    assert!(!empty.is_supported(0));
    assert_eq!(empty.last_op(), 0);
    assert!(empty.supported_ops().is_empty());
    assert_eq!(Probe::default().ops().len(), Probe::COUNT);

    let mut ops = [ProbeOp::default(); Probe::COUNT];
    ops[1].flags = sys::IO_URING_OP_SUPPORTED;
    ops[3].flags = sys::IO_URING_OP_SUPPORTED;
    ops[9].flags = sys::IO_URING_OP_SUPPORTED;
    let probe = Probe::from_kernel(5, 6, ops);
    assert!(probe.is_supported(1));
    assert!(!probe.is_supported(2));
    assert!(probe.is_supported(3));
    assert!(!probe.is_supported(9));
    assert_eq!(probe.supported_ops(), vec![1, 3]);
    assert_eq!(probe.ops().len(), Probe::COUNT);
    assert_eq!(probe.last_op(), 5);
}

#[test]
fn restrictions() {
    assert_eq!(Restriction::register_op(5), Restriction { opcode: sys::IORING_RESTRICTION_REGISTER_OP, value: 5 });
    assert_eq!(Restriction::sqe_op(6), Restriction { opcode: sys::IORING_RESTRICTION_SQE_OP, value: 6 });
    assert_eq!(
        Restriction::sqe_flags_allowed(sys::IOSQE_IO_LINK),
        Restriction { opcode: sys::IORING_RESTRICTION_SQE_FLAGS_ALLOWED, value: sys::IOSQE_IO_LINK }
    );
    assert_eq!(
        Restriction::sqe_flags_required(sys::IOSQE_ASYNC),
        Restriction { opcode: sys::IORING_RESTRICTION_SQE_FLAGS_REQUIRED, value: sys::IOSQE_ASYNC }
    );
}

#[test]
fn nop_and_timeout_entries() {
    let nop = Nop::new().build().sqe();
    assert_eq!(nop.opcode, sys::IORING_OP_NOP);
    assert_eq!(nop.fd, -1);
    let t = Timeout::new(0x1000).count(3).flags(1).build().sqe();
    assert_eq!(t.opcode, sys::IORING_OP_TIMEOUT);
    assert_eq!((t.fd, t.addr, t.len, t.off, t.op_flags), (-1, 0x1000, 1, 3, 1));
}

#[test]
fn fixed_files_set_the_fixed_flag() {
    let r = Read::new(Fixed(3), 0x10, 8).build().sqe();
    assert_eq!((r.fd, r.flags & sys::IOSQE_FIXED_FILE), (3, sys::IOSQE_FIXED_FILE));
    let r = Read::new(Fd(5), 0x10, 8).build().sqe();
    assert_eq!((r.fd, r.flags & sys::IOSQE_FIXED_FILE), (5, 0));
}

#[test]
fn splice_marks_a_fixed_input() {
    let s = Splice::new(Fixed(2), 10, Fd(4), 20, 100).flags(1).build().sqe();
    assert_eq!(s.opcode, sys::IORING_OP_SPLICE);
    assert_eq!((s.splice_fd_in, s.fd, s.addr, s.off, s.len), (2, 4, 10, 20, 100));
    assert_eq!(s.op_flags, 1 | sys::SPLICE_F_FD_IN_FIXED);
    assert_eq!(s.flags & sys::IOSQE_FIXED_FILE, 0);
    let s = Splice::new(Fd(2), -1, Fixed(4), -1, 100).build().sqe();
    assert_eq!(s.op_flags, 0);
    assert_eq!(s.flags & sys::IOSQE_FIXED_FILE, sys::IOSQE_FIXED_FILE);
}

#[test]
fn poll_mask_in_native_order() {
    let p = PollAdd::new(Fd(6), 0x0001_0004).build().sqe();
    assert_eq!(p.opcode, sys::IORING_OP_POLL_ADD);
    assert_eq!(p.fd, 6);
    if u32::from_ne_bytes([1, 0, 0, 0]) == 1 {
        assert_eq!(p.op_flags, 0x0001_0004);
    } else {
        assert_eq!(p.op_flags, 0x0004_0001);
    }
}

#[test]
fn openat2_passes_the_how_size() {
    let how = OpenHow::new().flags(2).mode(0o644).resolve(8);
    assert_eq!((how.flags, how.mode, how.resolve), (2, 0o644, 8));
    let e = OpenAt2::new(Fd(-100), 0x100, 0x200).build().sqe();
    assert_eq!(e.opcode, sys::IORING_OP_OPENAT2);
    assert_eq!((e.fd, e.addr, e.off, e.len), (-100, 0x100, 0x200, 24));
}

#[test]
fn entry_builders_set_fields() {
    let e: Entry = Nop::new().build().user_data(9).flags(sys::IOSQE_IO_LINK).personality(2);
    let s = e.sqe();
    assert_eq!((s.user_data, s.flags, s.personality), (9, sys::IOSQE_IO_LINK, 2));
    let e = Nop::new().build().flags(sys::IOSQE_ASYNC).flags(sys::IOSQE_IO_DRAIN);
    assert_eq!(e.sqe().flags, sys::IOSQE_ASYNC | sys::IOSQE_IO_DRAIN);
}

#[test]
fn futex_waitv_fields() {
    let f = FutexWaitV::new().val(1).uaddr(0x40).flags(2);
    assert_eq!((f.val, f.uaddr, f.flags, f.reserved), (1, 0x40, 2, 0));
}

#[test]
fn timespec_and_submit_args() {
    let ts = Timespec::new().sec(3).nsec(4);
    assert_eq!((ts.tv_sec(), ts.tv_nsec()), (3, 4));
    assert_eq!((Timespec::new().tv_sec(), Timespec::new().tv_nsec()), (0, 0));
    let args = SubmitArgs::new();
    assert!(args.timespec_ref().is_none());
    assert!(args.sigmask_ref().is_none());
    let args = args.timespec(&ts);
    assert_eq!(args.timespec_ref().copied(), Some(ts));
    assert!(args.sigmask_ref().is_none());
}

#[test]
fn task_queue_counts_down() {
    let mut q = TaskQueue(2);
    assert!(q.want());
    q.pop();
    assert!(q.want());
    q.pop();
    assert!(!q.want());
}

#[test]
fn submitter_reads_the_kernel_ring_flags() {
    assert!(submit::sq_need_wakeup(1));
    assert!(!submit::sq_need_wakeup(2));
    assert!(submit::sq_cq_overflow(2));
    assert!(!submit::sq_cq_overflow(1 | 4));
    assert!(submit::sq_need_wakeup(7) && submit::sq_cq_overflow(7));
}

#[test]
fn queue_tasks_fills_up_to_capacity() {
    let mut sq = SubmissionQueue::<Entry>::new(4, 3, 0).unwrap();
    let nop = Nop::new().build().user_data(5);
    let mut tasks = TaskQueue(10);
    assert_eq!(queue_tasks(&mut tasks, &mut sq, &nop), 4);
    assert_eq!(tasks.0, 6);
    assert!(sq.is_full());
    assert!(sq.queued().iter().all(|e| e.sqe().user_data == 5));
    assert!(sq.sync(3, 0, 0));
    assert_eq!(queue_tasks(&mut tasks, &mut sq, &nop), 3);
    assert_eq!(tasks.0, 3);
    let mut few = TaskQueue(1);
    assert!(sq.sync(7, 0, 0));
    assert_eq!(queue_tasks(&mut few, &mut sq, &nop), 1);
    assert!(!few.want());
    assert_eq!(sq.len(), 1);
}

#[test]
fn buf_ring_entry_setters_keep_other_fields() {
    let mut e = BufRingEntry::zeroed();
    e.set_addr(0x1000);
    e.set_bid(4);
    e.set_len(9);
    e.set_resv(2);
    e.set_len(10);
    assert_eq!(e.addr(), 0x1000);
    assert_eq!(e.bid(), 4);
    assert_eq!(e.len(), 10);
    e.set_addr(0x2000);
    assert_eq!((e.addr(), e.bid(), e.len(), e.resv()), (0x2000, 4, 10, 2));
}

#[test]
fn timespec_from_duration_fields() {
    let ts = Timespec::from(std::time::Duration::new(7, 999_999_999));
    assert_eq!((ts.tv_sec(), ts.tv_nsec()), (7, 999_999_999));
    let ts = Timespec::from(std::time::Duration::from_millis(1500));
    assert_eq!((ts.tv_sec(), ts.tv_nsec()), (1, 500_000_000));
}

#[test]
fn poll_mask_word_by_byte_order() {
    assert_eq!(poll_mask_word(0x0001_0004, 1), 0x0004_0001);
    assert_eq!(poll_mask_word(0x0001_0004, 0x0100_0000), 0x0001_0004);
    assert_eq!(io_uring::linux_io_uring::poll_events_word(5, 1), 5 << 16);
    assert_eq!(io_uring::linux_io_uring::poll_events_word(5, 0x0100_0000), 5);
}
