//! Submission Queue

use vstd::prelude::*;
use crate::ring::{self, RingBuffer, distance, pos};
use crate::sys::Sqe;
use crate::has_flag;

verus! {

/// rustix's `IoringSqFlags::NEED_WAKEUP`, as bits.
#[verifier::external_body]
pub(crate) fn sq_need_wakeup_bit() -> (r: u32)
    ensures
        r == 1,
{
    rustix::io_uring::IoringSqFlags::NEED_WAKEUP.bits()
}

/// rustix's `IoringSqFlags::CQ_OVERFLOW`, as bits.
#[verifier::external_body]
pub(crate) fn sq_cq_overflow_bit() -> (r: u32)
    ensures
        r == 2,
{
    rustix::io_uring::IoringSqFlags::CQ_OVERFLOW.bits()
}

/// rustix's `IoringSqFlags::TASKRUN`, as bits.
#[verifier::external_body]
fn sq_taskrun_bit() -> (r: u32)
    ensures
        r == 4,
{
    rustix::io_uring::IoringSqFlags::TASKRUN.bits()
}

/// rustix's `IoringSetupFlags::SQE128`, as bits.
#[verifier::external_body]
fn setup_sqe128_bit() -> (r: u32)
    ensures
        r == 1024,
{
    rustix::io_uring::IoringSetupFlags::SQE128.bits()
}

/// The flag that marks the kernel's submission polling thread as asleep.
pub open spec fn spec_need_wakeup_bit() -> u32 { 1 }
/// The flag that marks the completion ring as overflown.
pub open spec fn spec_cq_overflow_bit() -> u32 { 2 }
/// The flag that marks pending task work.
pub open spec fn spec_taskrun_bit() -> u32 { 4 }

/// Submission queue entry flags: a bitwise OR of the `IOSQE_*` constants of
/// [`sys`](crate::sys).
pub type Flags = u8;

/// A submission queue entry kind: [`Entry`] or [`Entry128`].
pub trait EntryMarker: Copy + Sized {
    /// The setup flags that a ring holding this kind of entry must be created with.
    fn additional_setup_flags() -> u32;

    /// An all-zero entry.
    fn zeroed() -> Self;
}

/// A 64-byte submission queue entry (SQE), representing a request for an I/O operation.
#[derive(Debug, Clone, Copy)]
pub struct Entry(pub(crate) Sqe);

/// A 128-byte submission queue entry: an [`Entry`] followed by 64 bytes of
/// command data.
#[derive(Debug, Clone, Copy)]
pub struct Entry128(pub(crate) Entry, pub(crate) [u8; 64]);

impl View for Entry {
    type V = Sqe;

    closed spec fn view(&self) -> Sqe {
        self.0
    }
}

impl Entry {
    /// Set the entry's flags, keeping those already set.
    pub fn flags(self, flags: Flags) -> (r: Entry)
        ensures
            r@ == (Sqe { flags: self@.flags | flags, ..self@ }),
    {
        let mut e = self;
        e.0.flags = e.0.flags | flags;
        e
    }

    /// Set the user data, which the completion of this request carries back.
    pub fn user_data(self, user_data: u64) -> (r: Entry)
        ensures
            r@ == (Sqe { user_data, ..self@ }),
    {
        let mut e = self;
        e.0.user_data = user_data;
        e
    }

    /// Set the personality (registered credentials) of this request.
    pub fn personality(self, personality: u16) -> (r: Entry)
        ensures
            r@ == (Sqe { personality, ..self@ }),
    {
        let mut e = self;
        e.0.personality = personality;
        e
    }

    /// The entry holding `sqe`.
    pub(crate) fn from_sqe(sqe: Sqe) -> (r: Entry)
        ensures
            r@ == sqe,
    {
        Entry(sqe)
    }

    /// The raw entry as it is to be written into the submission queue.
    pub fn sqe(&self) -> (r: Sqe)
        ensures
            r == self@,
    {
        self.0
    }
}

impl EntryMarker for Entry {
    fn additional_setup_flags() -> (r: u32)
        ensures
            r == 0,
    {
        0
    }

    fn zeroed() -> (r: Entry)
        ensures
            r@ == Sqe::spec_zeroed(),
    {
        Entry(Sqe::zeroed())
    }
}

impl Entry128 {
    pub closed spec fn spec_entry(&self) -> Entry {
        self.0
    }

    pub closed spec fn spec_cmd(&self) -> [u8; 64] {
        self.1
    }

    /// Set the entry's flags, keeping those already set.
    pub fn flags(self, flags: Flags) -> (r: Entry128)
        ensures
            r.spec_entry()@ == (Sqe { flags: self.spec_entry()@.flags | flags, ..self.spec_entry()@ }),
            r.spec_cmd() == self.spec_cmd(),
    {
        Entry128(self.0.flags(flags), self.1)
    }

    /// Set the user data, which the completion of this request carries back.
    pub fn user_data(self, user_data: u64) -> (r: Entry128)
        ensures
            r.spec_entry()@ == (Sqe { user_data, ..self.spec_entry()@ }),
            r.spec_cmd() == self.spec_cmd(),
    {
        Entry128(self.0.user_data(user_data), self.1)
    }

    /// Set the personality (registered credentials) of this request.
    pub fn personality(self, personality: u16) -> (r: Entry128)
        ensures
            r.spec_entry()@ == (Sqe { personality, ..self.spec_entry()@ }),
            r.spec_cmd() == self.spec_cmd(),
    {
        Entry128(self.0.personality(personality), self.1)
    }

    /// The leading 64-byte entry.
    pub fn entry(&self) -> (r: Entry)
        ensures
            r == self.spec_entry(),
    {
        self.0
    }

    /// The trailing command bytes.
    pub fn cmd(&self) -> (r: [u8; 64])
        ensures
            r == self.spec_cmd(),
    {
        self.1
    }
}

impl EntryMarker for Entry128 {
    fn additional_setup_flags() -> (r: u32)
        ensures
            r == 1024,
    {
        setup_sqe128_bit()
    }

    fn zeroed() -> (r: Entry128)
        ensures
            r.spec_entry()@ == Sqe::spec_zeroed(),
            forall|i: int| 0 <= i < 64 ==> r.spec_cmd()@[i] == 0,
    {
        Entry128(Entry(Sqe::zeroed()), [0u8; 64])
    }
}

impl From<Entry> for Entry128 {
    fn from(entry: Entry) -> (r: Entry128)
        ensures
            r.spec_entry() == entry,
            forall|i: int| 0 <= i < 64 ==> r.spec_cmd()@[i] == 0,
    {
        Entry128(entry, [0u8; 64])
    }
}

impl vstd::std_specs::convert::FromSpecImpl<Entry> for Entry128 {
    open spec fn obeys_from_spec() -> bool {
        true
    }

    closed spec fn from_spec(v: Entry) -> Entry128 {
        Entry128(v, vstd::array::spec_array_fill_for_copy_type::<u8, 64>(0u8))
    }
}

/// An error pushing to the submission queue due to it being full.
#[derive(Debug, Clone, Copy, PartialEq, Eq, Structural)]
pub struct PushError;

impl PushError {
    /// The error's message.
    pub fn message(&self) -> (r: String)
        ensures
            r@ == "submission queue is full"@,
    {
        String::from_str("submission queue is full")
    }
}

/// An io_uring instance's submission queue: the entries that the application
/// has queued and the kernel has not yet consumed.
pub struct SubmissionQueue<E: EntryMarker = Entry> {
    ring: RingBuffer<E>,
    flags: u32,
    dropped: u32,
}

impl<E: EntryMarker> SubmissionQueue<E> {
    pub open spec fn wf(&self) -> bool {
        self.spec_ring().wf()
    }

    pub closed spec fn spec_ring(&self) -> RingBuffer<E> {
        self.ring
    }

    /// The ring flags last published by the kernel.
    pub closed spec fn spec_flags(&self) -> u32 {
        self.flags
    }

    /// The dropped-entry count last published by the kernel.
    pub closed spec fn spec_dropped(&self) -> u32 {
        self.dropped
    }

    /// The queued entries, oldest first.
    pub open spec fn view(&self) -> Seq<E> {
        self.spec_ring().view()
    }

    pub open spec fn spec_capacity(&self) -> nat {
        self.spec_ring().spec_entries() as nat
    }

    /// An empty submission queue over a ring of `ring_entries` slots whose head and
    /// tail both stand at `start`. Returns `None` unless `ring_entries` is a power of
    /// two and `ring_mask == ring_entries - 1`.
    pub fn new(ring_entries: u32, ring_mask: u32, start: u32) -> (r: Option<Self>)
        ensures
            r is Some <==> ring::valid_geometry(ring_entries, ring_mask),
            r matches Some(q) ==> {
                &&& q.wf()
                &&& q.view() == Seq::<E>::empty()
                &&& q.spec_capacity() == ring_entries
                &&& q.spec_ring().spec_head() == start
                &&& q.spec_flags() == 0
                &&& q.spec_dropped() == 0
            },
    {
        match RingBuffer::new(ring_entries, ring_mask, start, E::zeroed()) {
            Some(ring) => Some(SubmissionQueue { ring, flags: 0, dropped: 0 }),
            None => None,
        }
    }

    /// Synchronize with the kernel: take in the head position, ring flags and dropped
    /// count it has published. A head outside the queued range (one the kernel could
    /// not have reached) is ignored, and `false` is returned.
    pub fn sync(&mut self, kernel_head: u32, kernel_flags: u32, kernel_dropped: u32) -> (r: bool)
        requires
            old(self).wf(),
        ensures
            final(self).wf(),
            r == (distance(old(self).spec_ring().spec_head(), kernel_head) <= old(self).view().len()),
            r ==> final(self).view() == old(self).view().skip(
                distance(old(self).spec_ring().spec_head(), kernel_head) as int,
            ),
            r ==> final(self).spec_ring().spec_head() == kernel_head,
            !r ==> final(self).view() == old(self).view(),
            final(self).spec_ring().spec_tail() == old(self).spec_ring().spec_tail(),
            final(self).spec_capacity() == old(self).spec_capacity(),
            final(self).spec_flags() == kernel_flags,
            final(self).spec_dropped() == kernel_dropped,
    {
        self.flags = kernel_flags;
        self.dropped = kernel_dropped;
        let head = self.ring.head();
        let tail = self.ring.tail();
        proof {
            ring::lemma_wrapping_sub_is_distance(kernel_head, head);
            ring::lemma_wrapping_sub_is_distance(tail, head);
        }
        if kernel_head.wrapping_sub(head) <= tail.wrapping_sub(head) {
            self.ring.advance_head(kernel_head);
            true
        } else {
            false
        }
    }

    /// When the kernel polls the submission queue, whether its thread has gone to sleep
    /// and must be woken by a system call.
    pub fn need_wakeup(&self) -> (r: bool)
        ensures
            r == has_flag(self.spec_flags(), spec_need_wakeup_bit()),
    {
        self.flags & sq_need_wakeup_bit() != 0
    }

    /// The number of invalid submission queue entries the kernel has encountered.
    pub fn dropped(&self) -> (r: u32)
        ensures
            r == self.spec_dropped(),
    {
        self.dropped
    }

    /// Whether the completion queue ring is overflown.
    pub fn cq_overflow(&self) -> (r: bool)
        ensures
            r == has_flag(self.spec_flags(), spec_cq_overflow_bit()),
    {
        self.flags & sq_cq_overflow_bit() != 0
    }

    /// Whether completions are pending that should be processed.
    pub fn taskrun(&self) -> (r: bool)
        ensures
            r == has_flag(self.spec_flags(), spec_taskrun_bit()),
    {
        self.flags & sq_taskrun_bit() != 0
    }

    /// The total number of entries in the submission queue ring buffer.
    pub fn capacity(&self) -> (r: usize)
        ensures
            r == self.spec_capacity(),
    {
        self.ring.capacity()
    }

    /// The number of submission queue entries in the ring buffer.
    pub fn len(&self) -> (r: usize)
        requires
            self.wf(),
        ensures
            r == self.view().len(),
    {
        self.ring.len()
    }

    /// Whether the submission queue ring buffer is empty.
    pub fn is_empty(&self) -> (r: bool)
        requires
            self.wf(),
        ensures
            r == (self.view().len() == 0),
    {
        self.len() == 0
    }

    /// Whether the submission queue has reached capacity, so that no more entries can
    /// be added before the kernel consumes some.
    pub fn is_full(&self) -> (r: bool)
        requires
            self.wf(),
        ensures
            r == (self.view().len() == self.spec_capacity()),
    {
        self.len() == self.capacity()
    }

    /// Attempt to push an entry into the queue. If the queue is full, an error is
    /// returned and the queue is unchanged.
    pub fn push(&mut self, entry: &E) -> (r: Result<(), PushError>)
        requires
            old(self).wf(),
        ensures
            final(self).wf(),
            r is Ok <==> old(self).view().len() < old(self).spec_capacity(),
            r is Ok ==> final(self).view() == old(self).view().push(*entry),
            r is Err ==> final(self).view() == old(self).view(),
            final(self).spec_capacity() == old(self).spec_capacity(),
            final(self).spec_ring().spec_head() == old(self).spec_ring().spec_head(),
            final(self).spec_flags() == old(self).spec_flags(),
            final(self).spec_dropped() == old(self).spec_dropped(),
    {
        match self.ring.push(*entry) {
            Ok(()) => Ok(()),
            Err(_) => Err(PushError),
        }
    }

    /// Attempt to push several entries into the queue. If the queue does not have
    /// space for all of them, an error is returned and the queue is unchanged.
    pub fn push_multiple(&mut self, entries: &[E]) -> (r: Result<(), PushError>)
        requires
            old(self).wf(),
        ensures
            final(self).wf(),
            r is Ok <==> old(self).view().len() + entries@.len() <= old(self).spec_capacity(),
            r is Ok ==> final(self).view() == old(self).view() + entries@,
            r is Err ==> final(self).view() == old(self).view(),
            final(self).spec_capacity() == old(self).spec_capacity(),
            final(self).spec_ring().spec_head() == old(self).spec_ring().spec_head(),
            final(self).spec_flags() == old(self).spec_flags(),
            final(self).spec_dropped() == old(self).spec_dropped(),
    {
        if self.capacity() - self.len() < entries.len() {
            return Err(PushError);
        }
        let ghost start = self.view();
        let mut i: usize = 0;
        while i < entries.len()
            invariant
                self.wf(),
                0 <= i <= entries@.len(),
                start.len() + entries@.len() <= self.spec_capacity(),
                self.view() == start + entries@.subrange(0, i as int),
                self.spec_capacity() == old(self).spec_capacity(),
                self.spec_ring().spec_head() == old(self).spec_ring().spec_head(),
                self.spec_flags() == old(self).spec_flags(),
                self.spec_dropped() == old(self).spec_dropped(),
            decreases entries@.len() - i,
        {
            let r = self.ring.push(entries[i]);
            assert(r is Ok);
            assert(entries@.subrange(0, i + 1) == entries@.subrange(0, i as int).push(entries@[i as int]));
            i = i + 1;
        }
        assert(entries@.subrange(0, entries@.len() as int) == entries@);
        Ok(())
    }

    /// The queued entries, oldest first, read slot by slot from the head on.
    pub fn queued(&self) -> (r: Vec<E>)
        requires
            self.wf(),
        ensures
            r@ == self.view(),
    {
        let len = self.len();
        let head = self.ring.head();
        let mut out: Vec<E> = Vec::new();
        let mut i: usize = 0;
        while i < len
            invariant
                self.wf(),
                len == self.view().len(),
                head == self.spec_ring().spec_head(),
                i <= len,
                out@.len() == i,
                forall|k: int| 0 <= k < i ==> #[trigger] out@[k] == self.view()[k],
            decreases len - i,
        {
            proof {
                ring::lemma_wrapping_add_is_pos(head, i as u32);
            }
            let slot = self.slot_of(head.wrapping_add(i as u32));
            out.push(self.ring.slot_at(slot));
            i = i + 1;
        }
        assert(out@ =~= self.view());
        out
    }

    /// The position of the queue's head (the oldest entry).
    pub fn head(&self) -> (r: u32)
        ensures
            r == self.spec_ring().spec_head(),
    {
        self.ring.head()
    }

    /// The position of the queue's tail (where the next entry goes).
    pub fn tail(&self) -> (r: u32)
        ensures
            r == self.spec_ring().spec_tail(),
    {
        self.ring.tail()
    }

    /// The slot that position `p` occupies in the ring.
    pub fn slot_of(&self, p: u32) -> (r: u32)
        requires
            self.wf(),
        ensures
            r == ring::slot(p, self.spec_ring().spec_mask()),
            r < self.spec_capacity(),
    {
        proof {
            ring::lemma_slot_bound(p, self.spec_ring().spec_mask());
        }
        p & self.ring.mask()
    }

    /// The entry held by slot `index`, for copying into the kernel's shared ring.
    pub fn entry_at_slot(&self, index: u32) -> (r: E)
        requires
            self.wf(),
            index < self.spec_capacity(),
        ensures
            r == self.spec_ring().spec_slots()[index as int],
    {
        self.ring.slot_at(index)
    }
}

/// The pending entries after pushing each of `entries` in turn onto `s`.
pub open spec fn push_each<E>(s: Seq<E>, entries: Seq<E>) -> Seq<E>
    decreases entries.len(),
{
    if entries.len() == 0 {
        s
    } else {
        push_each(s, entries.drop_last()).push(entries.last())
    }
}

/// A submission queue never holds more entries than it has slots.
pub proof fn lemma_len_within_capacity<E: EntryMarker>(q: &SubmissionQueue<E>)
    requires
        q.wf(),
    ensures
        q.view().len() <= q.spec_capacity(),
{
}

/// The kernel finds the queued entries in the ring in queue order: the `i`-th
/// oldest sits in the slot of the position `i` steps past the head, which is
/// what [`entry_at_slot`](SubmissionQueue::entry_at_slot) of
/// [`slot_of`](SubmissionQueue::slot_of) that position returns.
pub proof fn lemma_queued_entry_slot<E: EntryMarker>(q: &SubmissionQueue<E>, i: int)
    requires
        q.wf(),
        0 <= i < q.view().len(),
    ensures
        ring::slot(pos(q.spec_ring().spec_head(), i as u32), q.spec_ring().spec_mask()) < q.spec_capacity(),
        q.spec_ring().spec_slots()[ring::slot(pos(q.spec_ring().spec_head(), i as u32), q.spec_ring().spec_mask())
            as int] == q.view()[i],
{
    ring::lemma_slot_bound(pos(q.spec_ring().spec_head(), i as u32), q.spec_ring().spec_mask());
}

/// Pushing several entries at once queues exactly what pushing them one by one
/// would: `push_multiple(entries)` leaves `s + entries`, and so do the pushes.
pub proof fn lemma_push_multiple_is_repeated_push<E>(s: Seq<E>, entries: Seq<E>)
    ensures
        s + entries == push_each(s, entries),
    decreases entries.len(),
{
    if entries.len() > 0 {
        lemma_push_multiple_is_repeated_push(s, entries.drop_last());
        assert(s + entries =~= (s + entries.drop_last()).push(entries.last()));
    } else {
        assert(s + entries =~= s);
    }
}

} // verus!
