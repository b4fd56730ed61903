use io_uring::concurrent::{
    pop_step, publish_step, queue_len, reserve_tail, slot_index, Ring, SharedCompletionRing, SharedRing,
};
use io_uring::cqueue::{self, buffer_select, CompletionQueue};
use io_uring::opcode::{Nop, Read};
use io_uring::squeue::{Entry, Entry128, EntryMarker, PushError, SubmissionQueue};
use io_uring::sys::{Cqe, Sqe};
use io_uring::types::Fd;

fn nop(user_data: u64) -> Entry {
    Nop::new().build().user_data(user_data)
}

fn cqe(user_data: u64, res: i32) -> cqueue::Entry {
    cqueue::Entry::new(Cqe { user_data, res, flags: 0 })
}

#[test]
fn sq_rejects_bad_geometry() {
    assert!(SubmissionQueue::<Entry>::new(0, 0, 0).is_none());
    assert!(SubmissionQueue::<Entry>::new(6, 5, 0).is_none());
    assert!(SubmissionQueue::<Entry>::new(8, 3, 0).is_none());
    assert!(SubmissionQueue::<Entry>::new(8, 7, 0).is_some());
    assert!(CompletionQueue::new(0, 0, 0).is_none());
    assert!(CompletionQueue::new(16, 7, 0).is_none());
    assert!(CompletionQueue::new(16, 15, 9).is_some());
}

#[test]
fn sq_push_until_full() {
    let mut sq = SubmissionQueue::<Entry>::new(4, 3, 0).unwrap();
    assert!(sq.is_empty());
    assert_eq!(sq.capacity(), 4);
    for i in 0..4 {
        assert!(sq.push(&nop(i)).is_ok());
    }
    assert!(sq.is_full());
    assert_eq!(sq.len(), 4);
    assert_eq!(sq.push(&nop(9)), Err(PushError));
    assert_eq!(sq.len(), 4);
    assert_eq!(PushError.message(), "submission queue is full");
}

#[test]
fn sq_entries_land_in_slots_in_order() {
    let mut sq = SubmissionQueue::<Entry>::new(4, 3, 2).unwrap();
    sq.push(&nop(10)).unwrap();
    sq.push(&nop(11)).unwrap();
    sq.push(&nop(12)).unwrap();
    assert_eq!(sq.slot_of(sq.head()), 2);
    assert_eq!(sq.entry_at_slot(2).sqe().user_data, 10);
    assert_eq!(sq.entry_at_slot(3).sqe().user_data, 11);
    assert_eq!(sq.entry_at_slot(0).sqe().user_data, 12);
}

#[test]
fn sq_wraps_around_u32() {
    let start = u32::MAX - 1;
    let mut sq = SubmissionQueue::<Entry>::new(4, 3, start).unwrap();
    for i in 0..4 {
        sq.push(&nop(i)).unwrap();
    }
    assert_eq!(sq.tail(), 2);
    assert_eq!(sq.len(), 4);
    assert!(sq.is_full());
    // The kernel consumes three entries, crossing the wrap.
    assert!(sq.sync(1, 0, 0));
    assert_eq!(sq.len(), 1);
    sq.push(&nop(7)).unwrap();
    assert_eq!(sq.len(), 2);
    let queued: Vec<u64> = sq.queued().iter().map(|e| e.sqe().user_data).collect();
    assert_eq!(queued, vec![3, 7]);
}

#[test]
fn sq_sync_ignores_impossible_head() {
    let mut sq = SubmissionQueue::<Entry>::new(8, 7, 0).unwrap();
    sq.push(&nop(1)).unwrap();
    sq.push(&nop(2)).unwrap();
    assert!(!sq.sync(5, 1, 3));
    assert_eq!(sq.len(), 2);
    assert!(sq.need_wakeup());
    assert_eq!(sq.dropped(), 3);
    assert!(sq.sync(2, 2, 0));
    assert!(sq.is_empty());
    assert!(!sq.need_wakeup());
    assert!(sq.cq_overflow());
    assert!(!sq.taskrun());
    assert!(sq.sync(2, 4, 0));
    assert!(sq.taskrun());
}

#[test]
fn sq_push_multiple_all_or_nothing() {
    let mut sq = SubmissionQueue::<Entry>::new(4, 3, 0).unwrap();
    sq.push(&nop(0)).unwrap();
    let batch = [nop(1), nop(2), nop(3), nop(4)];
    assert_eq!(sq.push_multiple(&batch), Err(PushError));
    assert_eq!(sq.len(), 1);
    assert!(sq.push_multiple(&batch[..3]).is_ok());
    assert!(sq.is_full());
    assert_eq!(sq.entry_at_slot(3).sqe().user_data, 3);
}

#[test]
fn sq_of_128_byte_entries() {
    let mut sq = SubmissionQueue::<Entry128>::new(2, 1, 0).unwrap();
    let e = Entry128::from(nop(5)).user_data(6);
    sq.push(&e).unwrap();
    assert_eq!(sq.entry_at_slot(0).entry().sqe().user_data, 6);
    assert_eq!(sq.entry_at_slot(0).cmd(), [0u8; 64]);
    assert_eq!(Entry128::additional_setup_flags(), 1024);
    assert_eq!(Entry::additional_setup_flags(), 0);
}

#[test]
fn cq_next_in_posting_order() {
    let mut cq = CompletionQueue::new(4, 3, 0).unwrap();
    assert!(cq.next().is_none());
    cq.complete(cqe(1, 10)).unwrap();
    cq.complete(cqe(2, -4)).unwrap();
    assert_eq!(cq.len(), 2);
    assert_eq!(cq.size_hint(), (2, Some(4)));
    let a = cq.next().unwrap();
    assert_eq!((a.user_data(), a.result(), a.flags()), (1, 10, 0));
    let b = cq.next().unwrap();
    assert_eq!((b.user_data(), b.result()), (2, -4));
    assert!(cq.is_empty());
}

#[test]
fn cq_full_rejects_post() {
    let mut cq = CompletionQueue::new(2, 1, u32::MAX).unwrap();
    cq.complete(cqe(1, 0)).unwrap();
    cq.complete(cqe(2, 0)).unwrap();
    assert!(cq.is_full());
    assert!(cq.complete(cqe(3, 0)).is_err());
    assert_eq!(cq.next().unwrap().user_data(), 1);
    assert_eq!(cq.head(), 0);
    assert_eq!(cq.tail(), 1);
}

#[test]
fn cq_fill_moves_what_fits() {
    let mut cq = CompletionQueue::new(8, 7, 0).unwrap();
    for i in 0..5 {
        cq.complete(cqe(i, 0)).unwrap();
    }
    let mut out = [cqe(99, 0); 3];
    assert_eq!(cq.fill(&mut out), 3);
    assert_eq!(out.iter().map(|e| e.user_data()).collect::<Vec<_>>(), vec![0, 1, 2]);
    assert_eq!((cq.head(), cq.tail()), (3, 5));
    let mut out = [cqe(99, 0); 4];
    assert_eq!(cq.fill(&mut out), 2);
    assert_eq!(out.iter().map(|e| e.user_data()).collect::<Vec<_>>(), vec![3, 4, 99, 99]);
    assert!(cq.is_empty());
    assert_eq!((cq.head(), cq.tail()), (5, 5));
}

#[test]
fn cq_overflow_and_eventfd_flags() {
    let mut cq = CompletionQueue::new(2, 1, 0).unwrap();
    cq.sync(7, 1);
    assert_eq!(cq.overflow(), 7);
    assert!(cq.eventfd_disabled());
    cq.sync(0, 0);
    assert!(!cq.eventfd_disabled());
}

#[test]
fn buffer_select_reads_the_buffer_id() {
    assert_eq!(buffer_select(0), None);
    assert_eq!(buffer_select((5 << 16) | 1), Some(5));
    assert_eq!(buffer_select((0xffff << 16) | 3), Some(0xffff));
    assert_eq!(buffer_select(5 << 16), None);
}

#[test]
fn concurrent_reservation_steps() {
    assert_eq!(reserve_tail(0, 3, 4), Some(4));
    assert_eq!(reserve_tail(0, 4, 4), None);
    assert_eq!(reserve_tail(u32::MAX, 3, 4), None);
    assert_eq!(reserve_tail(u32::MAX, u32::MAX, 4), Some(0));
    assert_eq!(queue_len(u32::MAX, 2), 3);
    assert_eq!(pop_step(5, 5, 7), None);
    assert_eq!(pop_step(9, 11, 7), Some((1, 10)));
    assert_eq!(pop_step(u32::MAX, 1, 7), Some((7, 0)));
}

#[test]
fn ring_of_eight() {
    let mut ring: Ring<u64> = Ring::new();
    assert_eq!(ring.pop(), None);
    for i in 0..8 {
        assert_eq!(ring.push(i), Ok(()));
    }
    assert_eq!(ring.push(8), Err(8));
    assert_eq!(ring.pop(), Some(0));
    assert_eq!(ring.push(8), Ok(()));
    for i in 1..9 {
        assert_eq!(ring.pop(), Some(i));
    }
    assert_eq!(ring.pop(), None);
}

#[test]
fn entries_carry_read_arguments() {
    let e = Read::new(Fd(3), 0x1000, 64).offset(7).build();
    let s: Sqe = e.sqe();
    assert_eq!(s.fd, 3);
    assert_eq!(s.addr, 0x1000);
    assert_eq!(s.len, 64);
    assert_eq!(s.off, 7);
}

#[test]
fn shared_ring_publishes_in_reservation_order() {
    let mut r = SharedRing::new(4, 3, u32::MAX - 1, 0u64).unwrap();
    let a = r.reserve().unwrap();
    let b = r.reserve().unwrap();
    assert_eq!((a, b), (u32::MAX - 1, u32::MAX));
    r.write(b, 20);
    r.write(a, 10);
    assert!(!r.publish(b));
    assert!(r.publish(a));
    assert!(r.publish(b));
    assert!(!r.publish(b));
    let c = r.reserve().unwrap();
    let d = r.reserve().unwrap();
    assert_eq!((c, d), (0, 1));
    assert!(r.reserve().is_none());
    r.consume(u32::MAX);
    let e = r.reserve().unwrap();
    assert_eq!(e, 2);
    r.write(c, 30);
    assert!(r.publish(c));
}

#[test]
fn publish_waits_for_earlier_reservations() {
    assert_eq!(publish_step(7, 7), Some(8));
    assert_eq!(publish_step(6, 7), None);
    assert_eq!(publish_step(u32::MAX, u32::MAX), Some(0));
    assert_eq!(slot_index(13, 7), 5);
    assert_eq!(slot_index(u32::MAX, 3), 3);
}

#[test]
fn shared_completion_ring_hands_each_event_out_once() {
    let mut r = SharedCompletionRing::new(2, 1, u32::MAX, 0u64).unwrap();
    assert_eq!(r.try_take(u32::MAX), None);
    assert!(r.post(10).is_ok());
    assert!(r.post(20).is_ok());
    assert_eq!(r.post(30), Err(30));
    let h = r.head();
    assert_eq!(r.try_take(h), Some(10));
    assert_eq!(r.try_take(h), None);
    let h2 = r.head();
    assert_eq!(h2, 0);
    assert_eq!(r.try_take(h2), Some(20));
    assert_eq!(r.try_take(r.head()), None);
}
