//! Completion Queue

use vstd::prelude::*;
use crate::ring::{self, RingBuffer};
use crate::sys::{self, Cqe};
use crate::has_flag;

verus! {

/// An entry in the completion queue, representing a complete I/O operation.
#[derive(Debug, Clone, Copy)]
pub struct Entry(pub(crate) Cqe);

impl View for Entry {
    type V = Cqe;

    closed spec fn view(&self) -> Cqe {
        self.0
    }
}

impl Entry {
    /// An entry with the given fields, as read from the kernel's completion ring.
    pub fn new(cqe: Cqe) -> (r: Entry)
        ensures
            r@ == cqe,
    {
        Entry(cqe)
    }

    /// The operation-specific result code; for a read, the return value of `read(2)`.
    pub fn result(&self) -> (r: i32)
        ensures
            r == self@.res,
    {
        self.0.res
    }

    /// The user data of the request, as set on the submission queue entry.
    pub fn user_data(&self) -> (r: u64)
        ensures
            r == self@.user_data,
    {
        self.0.user_data
    }

    /// Metadata related to the operation, such as the selected buffer.
    pub fn flags(&self) -> (r: u32)
        ensures
            r == self@.flags,
    {
        self.0.flags
    }
}

/// The buffer id that the kernel selected for a request, if the completion flags
/// say that it selected one.
pub fn buffer_select(flags: u32) -> (r: Option<u16>)
    ensures
        has_flag(flags, sys::IORING_CQE_F_BUFFER) ==> r == Some(
            (flags >> sys::IORING_CQE_BUFFER_SHIFT) as u16,
        ),
        !has_flag(flags, sys::IORING_CQE_F_BUFFER) ==> r is None,
{
    if flags & sys::IORING_CQE_F_BUFFER != 0 {
        let id = flags >> sys::IORING_CQE_BUFFER_SHIFT;
        proof {
            assert(flags >> 16u32 <= 0xffff) by (bit_vector);
        }
        Some(id as u16)
    } else {
        None
    }
}

/// An io_uring instance's completion queue: the completion events that the
/// kernel has posted and the application has not yet taken.
pub struct CompletionQueue {
    ring: RingBuffer<Entry>,
    overflow: u32,
    flags: u32,
}

impl CompletionQueue {
    pub open spec fn wf(&self) -> bool {
        self.spec_ring().wf()
    }

    pub closed spec fn spec_ring(&self) -> RingBuffer<Entry> {
        self.ring
    }

    /// The overflow count last published by the kernel.
    pub closed spec fn spec_overflow(&self) -> u32 {
        self.overflow
    }

    /// The ring flags last published by the kernel.
    pub closed spec fn spec_flags(&self) -> u32 {
        self.flags
    }

    /// The unread completion events, oldest first.
    pub open spec fn view(&self) -> Seq<Entry> {
        self.spec_ring().view()
    }

    pub open spec fn spec_capacity(&self) -> nat {
        self.spec_ring().spec_entries() as nat
    }

    /// An empty completion queue over a ring of `ring_entries` slots whose head and
    /// tail both stand at `start`. Returns `None` unless `ring_entries` is a power of
    /// two and `ring_mask == ring_entries - 1`.
    pub fn new(ring_entries: u32, ring_mask: u32, start: u32) -> (r: Option<Self>)
        ensures
            r is Some <==> ring::valid_geometry(ring_entries, ring_mask),
            r matches Some(q) ==> {
                &&& q.wf()
                &&& q.view() == Seq::<Entry>::empty()
                &&& q.spec_capacity() == ring_entries
                &&& q.spec_ring().spec_head() == start
                &&& q.spec_overflow() == 0
                &&& q.spec_flags() == 0
            },
    {
        let blank = Entry(Cqe { user_data: 0, res: 0, flags: 0 });
        match RingBuffer::new(ring_entries, ring_mask, start, blank) {
            Some(ring) => Some(CompletionQueue { ring, overflow: 0, flags: 0 }),
            None => None,
        }
    }

    /// Record the overflow count and ring flags that the kernel has published.
    pub fn sync(&mut self, kernel_overflow: u32, kernel_flags: u32)
        ensures
            final(self).spec_ring() == old(self).spec_ring(),
            final(self).spec_overflow() == kernel_overflow,
            final(self).spec_flags() == kernel_flags,
    {
        self.overflow = kernel_overflow;
        self.flags = kernel_flags;
    }

    /// The kernel posts a completion event at the tail. If the ring is full the event
    /// is handed back and nothing changes.
    pub fn complete(&mut self, entry: Entry) -> (r: Result<(), Entry>)
        requires
            old(self).wf(),
        ensures
            final(self).wf(),
            r is Ok <==> old(self).view().len() < old(self).spec_capacity(),
            r is Ok ==> final(self).view() == old(self).view().push(entry),
            r matches Err(e) ==> e == entry && *final(self) == *old(self),
            final(self).spec_capacity() == old(self).spec_capacity(),
            final(self).spec_ring().spec_head() == old(self).spec_ring().spec_head(),
            final(self).spec_overflow() == old(self).spec_overflow(),
            final(self).spec_flags() == old(self).spec_flags(),
    {
        self.ring.push(entry)
    }

    /// If the queue is full and the kernel may drop events, the number it dropped.
    pub fn overflow(&self) -> (r: u32)
        ensures
            r == self.spec_overflow(),
    {
        self.overflow
    }

    /// Whether eventfd notifications are disabled.
    pub fn eventfd_disabled(&self) -> (r: bool)
        ensures
            r == has_flag(self.spec_flags(), sys::IORING_CQ_EVENTFD_DISABLED),
    {
        self.flags & sys::IORING_CQ_EVENTFD_DISABLED != 0
    }

    /// The total number of entries in the completion queue ring buffer.
    pub fn capacity(&self) -> (r: usize)
        ensures
            r == self.spec_capacity(),
    {
        self.ring.capacity()
    }

    /// The number of unread completion queue events.
    pub fn len(&self) -> (r: usize)
        requires
            self.wf(),
        ensures
            r == self.view().len(),
    {
        self.ring.len()
    }

    /// Whether there are no completion queue events to be processed.
    pub fn is_empty(&self) -> (r: bool)
        requires
            self.wf(),
        ensures
            r == (self.view().len() == 0),
    {
        self.len() == 0
    }

    /// Whether the completion queue is at maximum capacity.
    pub fn is_full(&self) -> (r: bool)
        requires
            self.wf(),
        ensures
            r == (self.view().len() == self.spec_capacity()),
    {
        self.len() == self.capacity()
    }

    /// Take the oldest completion event, or `None` when there is none.
    pub fn next(&mut self) -> (r: Option<Entry>)
        requires
            old(self).wf(),
        ensures
            final(self).wf(),
            r is None <==> old(self).view().len() == 0,
            r is None ==> *final(self) == *old(self),
            r matches Some(e) ==> e == old(self).view()[0] && final(self).view()
                == old(self).view().drop_first(),
            final(self).spec_capacity() == old(self).spec_capacity(),
            final(self).spec_ring().spec_tail() == old(self).spec_ring().spec_tail(),
            final(self).spec_overflow() == old(self).spec_overflow(),
            final(self).spec_flags() == old(self).spec_flags(),
    {
        self.ring.pop()
    }

    /// The bounds on the number of events that `next` will yield: exactly the unread
    /// ones, and never more than the capacity.
    pub fn size_hint(&self) -> (r: (usize, Option<usize>))
        requires
            self.wf(),
        ensures
            r.0 == self.view().len(),
            r.1 == Some(self.spec_capacity() as usize),
    {
        (self.len(), Some(self.capacity()))
    }

    /// Move as many unread events as fit into `entries`, oldest first, and return
    /// how many were moved.
    pub fn fill(&mut self, entries: &mut [Entry]) -> (r: usize)
        requires
            old(self).wf(),
        ensures
            final(self).wf(),
            r == if old(self).view().len() <= old(entries)@.len() {
                old(self).view().len()
            } else {
                old(entries)@.len()
            },
            final(entries)@ == old(self).view().subrange(0, r as int) + old(entries)@.subrange(
                r as int,
                old(entries)@.len() as int,
            ),
            final(self).view() == old(self).view().skip(r as int),
            final(self).spec_ring().spec_head() == ring::pos(old(self).spec_ring().spec_head(), r as u32),
            final(self).spec_ring().spec_tail() == old(self).spec_ring().spec_tail(),
            final(self).spec_capacity() == old(self).spec_capacity(),
            final(self).spec_overflow() == old(self).spec_overflow(),
            final(self).spec_flags() == old(self).spec_flags(),
    {
        let avail = self.len();
        let n = if avail <= entries.len() { avail } else { entries.len() };
        let ghost start = self.view();
        let ghost orig = entries@;
        let mut i: usize = 0;
        while i < n
            invariant
                self.wf(),
                0 <= i <= n,
                n <= start.len(),
                start.len() <= u32::MAX,
                n <= orig.len(),
                entries@.len() == orig.len(),
                self.view() == start.skip(i as int),
                self.spec_ring().spec_head() == ring::pos(old(self).spec_ring().spec_head(), i as u32),
                self.spec_ring().spec_tail() == old(self).spec_ring().spec_tail(),
                entries@ == start.subrange(0, i as int) + orig.subrange(i as int, orig.len() as int),
                self.spec_capacity() == old(self).spec_capacity(),
                self.spec_overflow() == old(self).spec_overflow(),
                self.spec_flags() == old(self).spec_flags(),
            decreases n - i,
        {
            proof {
                ring::lemma_pos_pos(old(self).spec_ring().spec_head(), i as u32, 1);
            }
            let e = self.ring.pop();
            match e {
                Some(v) => {
                    entries[i] = v;
                    assert(start.skip(i + 1) == start.skip(i as int).drop_first());
                    assert(entries@ == start.subrange(0, i + 1) + orig.subrange(
                        i + 1,
                        orig.len() as int,
                    ));
                },
                None => {
                    assert(false);
                },
            }
            i = i + 1;
        }
        n
    }

    /// The position of the queue's head (the oldest unread event).
    pub fn head(&self) -> (r: u32)
        ensures
            r == self.spec_ring().spec_head(),
    {
        self.ring.head()
    }

    /// The position of the queue's tail (where the kernel posts the next event).
    pub fn tail(&self) -> (r: u32)
        ensures
            r == self.spec_ring().spec_tail(),
    {
        self.ring.tail()
    }
}

/// A completion queue never holds more events than it has slots.
pub proof fn lemma_len_within_capacity(q: &CompletionQueue)
    requires
        q.wf(),
    ensures
        q.view().len() <= q.spec_capacity(),
{
}

/// Events come out in the order the kernel posted them: after posting `posted`
/// onto a queue holding `pending`, taking `pending.len() + i` events yields
/// `posted[i]` last.
pub proof fn lemma_fifo(pending: Seq<Entry>, posted: Seq<Entry>, i: int)
    requires
        0 <= i < posted.len(),
    ensures
        (pending + posted).skip(pending.len() + i)[0] == posted[i],
{
}

} // verus!
