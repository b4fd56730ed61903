//! The decisions that let several threads share one io_uring instance: each
//! atomic step of the shared queues is driven by a function here that takes the
//! values it loaded and says what to store.

use vstd::prelude::*;
use crate::ring::{self, RingBuffer, distance, pos, slot};

verus! {

/// The reservation step of a concurrent push: given the kernel's head and the
/// tail reserved so far, the next reserved tail, or `None` when the ring is full.
pub fn reserve_tail(head: u32, reserved_tail: u32, ring_entries: u32) -> (r: Option<u32>)
    ensures
        distance(head, reserved_tail) == ring_entries ==> r is None,
        distance(head, reserved_tail) != ring_entries ==> r == Some(pos(reserved_tail, 1)),
{
    proof {
        ring::lemma_wrapping_sub_is_distance(reserved_tail, head);
        ring::lemma_wrapping_add_is_pos(reserved_tail, 1);
    }
    if reserved_tail.wrapping_sub(head) == ring_entries {
        None
    } else {
        Some(reserved_tail.wrapping_add(1))
    }
}

/// A reservation never takes a ring past its capacity: starting from at most
/// `ring_entries` reserved entries, the next reservation leaves at most that many.
pub proof fn lemma_reserve_within_capacity(head: u32, reserved_tail: u32, ring_entries: u32)
    requires
        distance(head, reserved_tail) <= ring_entries,
        distance(head, reserved_tail) != ring_entries,
    ensures
        distance(head, pos(reserved_tail, 1)) == distance(head, reserved_tail) + 1,
        distance(head, pos(reserved_tail, 1)) <= ring_entries,
{
    ring::lemma_distance_extend(head, reserved_tail, 1);
}

/// The slot that a reserved position `p` is written to.
pub fn slot_index(p: u32, ring_mask: u32) -> (r: u32)
    ensures
        r == slot(p, ring_mask),
        r <= ring_mask,
{
    proof {
        ring::lemma_slot_bound(p, ring_mask);
    }
    p & ring_mask
}

/// The publish step of a concurrent push: with the shared tail loaded as `tail`,
/// the thread that reserved position `reserved_pos` may move the tail past it
/// only when the tail stands at it, that is once every earlier reservation has
/// been published; `None` means it must wait.
pub fn publish_step(tail: u32, reserved_pos: u32) -> (r: Option<u32>)
    ensures
        tail == reserved_pos ==> r == Some(pos(reserved_pos, 1)),
        tail != reserved_pos ==> r is None,
{
    if tail == reserved_pos {
        proof {
            ring::lemma_wrapping_add_is_pos(reserved_pos, 1);
        }
        Some(reserved_pos.wrapping_add(1))
    } else {
        None
    }
}

/// The number of entries between a head and a tail loaded from a shared ring.
pub fn queue_len(head: u32, tail: u32) -> (r: usize)
    ensures
        r == distance(head, tail),
{
    proof {
        ring::lemma_wrapping_sub_is_distance(tail, head);
    }
    tail.wrapping_sub(head) as usize
}

/// The pop step of a concurrent completion queue: with `head` and `tail` loaded,
/// `None` when the queue is empty, else the slot to read and the head to publish
/// once it has been read.
pub fn pop_step(head: u32, tail: u32, ring_mask: u32) -> (r: Option<(u32, u32)>)
    ensures
        head == tail ==> r is None,
        head != tail ==> r == Some((slot(head, ring_mask), pos(head, 1))),
{
    if head == tail {
        None
    } else {
        proof {
            ring::lemma_wrapping_add_is_pos(head, 1);
        }
        Some((head & ring_mask, head.wrapping_add(1)))
    }
}

/// The number of slots of a [`Ring`].
pub const LENGTH: u32 = 8;
/// The mask that selects a [`Ring`]'s slot bits.
pub const MASK: u32 = 7;

/// A fixed ring of eight elements with the submission queue's push and the
/// completion queue's pop, the protocol that the concurrent queues follow.
pub struct Ring<T> {
    ring: RingBuffer<Option<T>>,
}

impl<T: Copy> Ring<T> {
    pub closed spec fn spec_ring(&self) -> RingBuffer<Option<T>> {
        self.ring
    }

    pub open spec fn wf(&self) -> bool {
        &&& self.spec_ring().wf()
        &&& self.spec_ring().spec_entries() == LENGTH
        &&& forall|i: int| 0 <= i < self.spec_ring().view().len() ==> (#[trigger] self.spec_ring().view()[i]) is Some
    }

    /// The queued elements, oldest first.
    pub open spec fn view(&self) -> Seq<T> {
        self.spec_ring().view().map_values(|o: Option<T>| o->0)
    }

    /// An empty ring.
    pub fn new() -> (r: Ring<T>)
        ensures
            r.wf(),
            r.view() == Seq::<T>::empty(),
    {
        let ring = RingBuffer::new(LENGTH, MASK, 0, None);
        proof {
            assert(ring::valid_geometry(LENGTH, MASK)) by {
                assert(8u32 & 7u32 == 0) by (bit_vector);
            }
        }
        let r = Ring { ring: ring.unwrap() };
        assert(r.view() =~= Seq::<T>::empty());
        r
    }

    /// Append `t`, or hand it back when all eight slots are taken.
    pub fn push(&mut self, t: T) -> (r: Result<(), T>)
        requires
            old(self).wf(),
        ensures
            final(self).wf(),
            r is Ok <==> old(self).view().len() < LENGTH,
            r is Ok ==> final(self).view() == old(self).view().push(t),
            r matches Err(v) ==> v == t && final(self).view() == old(self).view(),
    {
        let ghost before = self.ring.view();
        match self.ring.push(Some(t)) {
            Ok(()) => {
                assert(self.view() =~= before.map_values(|o: Option<T>| o->0).push(t));
                Ok(())
            },
            Err(_) => Err(t),
        }
    }

    /// Remove the oldest element, or `None` when the ring is empty.
    pub fn pop(&mut self) -> (r: Option<T>)
        requires
            old(self).wf(),
        ensures
            final(self).wf(),
            r is None <==> old(self).view().len() == 0,
            r matches Some(v) ==> v == old(self).view()[0] && final(self).view() == old(self).view().drop_first(),
            r is None ==> final(self).view() == old(self).view(),
    {
        let ghost before = self.ring.view();
        match self.ring.pop() {
            Some(v) => {
                assert(before[0] is Some);
                assert(self.view() =~= before.map_values(|o: Option<T>| o->0).drop_first());
                match v {
                    Some(t) => Some(t),
                    None => None,
                }
            },
            None => None,
        }
    }
}

/// The submission ring as several pushing threads share it: the kernel's head,
/// the published tail up to which the kernel may read, and the reserved tail up
/// to which threads have claimed slots. A push reserves a slot, writes its entry
/// there and then publishes it, and the publications happen in reservation
/// order. Each method is one atomic step, so every interleaving of the threads'
/// steps is a sequence of calls.
pub struct SharedRing<T> {
    head: u32,
    tail: u32,
    reserved: u32,
    ring_mask: u32,
    ring_entries: u32,
    slots: Vec<T>,
}

impl<T: Copy> SharedRing<T> {
    pub closed spec fn spec_head(&self) -> u32 {
        self.head
    }

    pub closed spec fn spec_tail(&self) -> u32 {
        self.tail
    }

    pub closed spec fn spec_reserved(&self) -> u32 {
        self.reserved
    }

    pub closed spec fn spec_mask(&self) -> u32 {
        self.ring_mask
    }

    pub closed spec fn spec_entries(&self) -> u32 {
        self.ring_entries
    }

    pub closed spec fn spec_slots(&self) -> Seq<T> {
        self.slots@
    }

    /// Published entries lie between the head and the tail, reserved slots
    /// between the tail and the reserved tail, and all of them within one lap.
    pub open spec fn wf(&self) -> bool {
        &&& ring::valid_geometry(self.spec_entries(), self.spec_mask())
        &&& self.spec_slots().len() == self.spec_entries()
        &&& distance(self.spec_head(), self.spec_tail()) <= distance(self.spec_head(), self.spec_reserved())
        &&& distance(self.spec_head(), self.spec_reserved()) <= self.spec_entries()
    }

    /// The entry in the slot of position `p`.
    pub open spec fn at(&self, p: u32) -> T {
        self.spec_slots()[slot(p, self.spec_mask()) as int]
    }

    /// The published entries, oldest first: what the kernel may read.
    pub open spec fn view(&self) -> Seq<T> {
        Seq::new(
            distance(self.spec_head(), self.spec_tail()) as nat,
            |i: int| self.at(pos(self.spec_head(), i as u32)),
        )
    }

    /// Position `p` has been reserved by a thread and not yet published.
    pub open spec fn is_pending(&self, p: u32) -> bool {
        &&& distance(self.spec_head(), self.spec_tail()) <= distance(self.spec_head(), p)
        &&& distance(self.spec_head(), p) < distance(self.spec_head(), self.spec_reserved())
    }

    /// An empty ring whose head and tails stand at `start`, every slot holding
    /// `init`; `None` unless `ring_entries` is a power of two and `ring_mask` is
    /// one less.
    pub fn new(ring_entries: u32, ring_mask: u32, start: u32, init: T) -> (r: Option<Self>)
        ensures
            r is Some <==> ring::valid_geometry(ring_entries, ring_mask),
            r matches Some(q) ==> {
                &&& q.wf()
                &&& q.view() == Seq::<T>::empty()
                &&& q.spec_head() == start
                &&& q.spec_tail() == start
                &&& q.spec_reserved() == start
                &&& q.spec_entries() == ring_entries
            },
    {
        if ring_entries == 0 || ring_mask != ring_entries - 1 || ring_entries & ring_mask != 0 {
            return None;
        }
        let mut slots: Vec<T> = Vec::new();
        let mut k: u32 = 0;
        while k < ring_entries
            invariant
                k <= ring_entries,
                slots@.len() == k,
            decreases ring_entries - k,
        {
            slots.push(init);
            k = k + 1;
        }
        let q = SharedRing { head: start, tail: start, reserved: start, ring_mask, ring_entries, slots };
        assert(q.view() =~= Seq::<T>::empty());
        Some(q)
    }

    /// A thread claims the next slot: the position it may write, or `None` when
    /// the reserved slots and the unread published ones fill the ring.
    pub fn reserve(&mut self) -> (r: Option<u32>)
        requires
            old(self).wf(),
        ensures
            final(self).wf(),
            r is None <==> distance(old(self).spec_head(), old(self).spec_reserved()) == old(self).spec_entries(),
            r is None ==> final(self).spec_reserved() == old(self).spec_reserved(),
            r matches Some(p) ==> {
                &&& p == old(self).spec_reserved()
                &&& final(self).spec_reserved() == pos(p, 1)
                &&& final(self).is_pending(p)
            },
            forall|q: u32| old(self).is_pending(q) ==> final(self).is_pending(q),
            final(self).view() == old(self).view(),
            final(self).spec_head() == old(self).spec_head(),
            final(self).spec_tail() == old(self).spec_tail(),
            final(self).spec_slots() == old(self).spec_slots(),
            final(self).spec_mask() == old(self).spec_mask(),
            final(self).spec_entries() == old(self).spec_entries(),
    {
        match reserve_tail(self.head, self.reserved, self.ring_entries) {
            None => None,
            Some(next) => {
                let p = self.reserved;
                proof {
                    ring::lemma_distance_extend(self.head, p, 1);
                }
                self.reserved = next;
                Some(p)
            },
        }
    }

    /// The thread that reserved position `p` writes its entry into `p`'s slot.
    /// Neither a published entry nor another thread's reserved slot changes.
    pub fn write(&mut self, p: u32, value: T)
        requires
            old(self).wf(),
            old(self).is_pending(p),
        ensures
            final(self).wf(),
            final(self).at(p) == value,
            forall|q: u32| old(self).is_pending(q) && q != p ==> final(self).at(q) == old(self).at(q),
            final(self).view() == old(self).view(),
            final(self).spec_head() == old(self).spec_head(),
            final(self).spec_tail() == old(self).spec_tail(),
            final(self).spec_reserved() == old(self).spec_reserved(),
            final(self).spec_mask() == old(self).spec_mask(),
            final(self).spec_entries() == old(self).spec_entries(),
    {
        let ghost h = self.head;
        let ghost k = distance(self.head, p);
        proof {
            ring::lemma_slot_bound(p, self.ring_mask);
            ring::lemma_pos_distance(self.head, p);
        }
        let index = slot_index(p, self.ring_mask);
        self.slots.set(index as usize, value);
        proof {
            assert forall|i: int| 0 <= i < distance(h, self.tail) implies #[trigger] self.at(pos(h, i as u32))
                == old(self).at(pos(h, i as u32)) by {
                ring::lemma_slots_distinct(h, i as u32, k, self.ring_entries, self.ring_mask);
                ring::lemma_slot_bound(pos(h, i as u32), self.ring_mask);
            }
            assert forall|q: u32| old(self).is_pending(q) && q != p implies self.at(q) == old(self).at(q) by {
                let kq = distance(h, q);
                ring::lemma_pos_distance(h, q);
                ring::lemma_slot_bound(q, self.ring_mask);
                if kq < k {
                    ring::lemma_slots_distinct(h, kq, k, self.ring_entries, self.ring_mask);
                } else {
                    ring::lemma_slots_distinct(h, k, kq, self.ring_entries, self.ring_mask);
                }
            }
        }
        assert(self.view() =~= old(self).view());
    }

    /// The thread that reserved position `p` publishes it, which it may only do
    /// once every earlier reservation has been published, that is when the tail
    /// stands at `p`; otherwise nothing changes and `false` is returned (the
    /// thread waits and tries again). Publishing appends `p`'s entry.
    pub fn publish(&mut self, p: u32) -> (r: bool)
        requires
            old(self).wf(),
        ensures
            final(self).wf(),
            r == (old(self).spec_tail() == p && old(self).is_pending(p)),
            r ==> final(self).view() == old(self).view().push(old(self).at(p)),
            r ==> final(self).spec_tail() == pos(p, 1),
            !r ==> *final(self) == *old(self),
            forall|q: u32| old(self).is_pending(q) && q != p ==> final(self).is_pending(q),
            final(self).spec_head() == old(self).spec_head(),
            final(self).spec_reserved() == old(self).spec_reserved(),
            final(self).spec_slots() == old(self).spec_slots(),
            final(self).spec_mask() == old(self).spec_mask(),
            final(self).spec_entries() == old(self).spec_entries(),
    {
        proof {
            ring::lemma_wrapping_sub_is_distance(self.tail, self.head);
            ring::lemma_wrapping_sub_is_distance(self.reserved, self.head);
            ring::lemma_wrapping_sub_is_distance(p, self.head);
        }
        let next = match publish_step(self.tail, p) {
            Some(next) => next,
            None => {
                return false;
            },
        };
        if self.tail.wrapping_sub(self.head) >= self.reserved.wrapping_sub(self.head) {
            return false;
        }
        let ghost old_view = self.view();
        let ghost d = distance(self.head, self.tail);
        proof {
            ring::lemma_wrapping_add_is_pos(p, 1);
            ring::lemma_distance_extend(self.head, self.tail, 1);
            ring::lemma_pos_distance(self.head, self.tail);
            assert forall|q: u32| old(self).is_pending(q) && q != p implies distance(self.head, pos(p, 1))
                <= distance(self.head, q) by {
                ring::lemma_pos_distance(self.head, q);
            }
        }
        self.tail = next;
        assert(self.view() =~= old_view.push(old(self).at(p)));
        true
    }

    /// The kernel has read every published entry before position `new_head`.
    pub fn consume(&mut self, new_head: u32)
        requires
            old(self).wf(),
            distance(old(self).spec_head(), new_head) <= distance(old(self).spec_head(), old(self).spec_tail()),
        ensures
            final(self).wf(),
            final(self).view() == old(self).view().skip(distance(old(self).spec_head(), new_head) as int),
            forall|q: u32| old(self).is_pending(q) ==> final(self).is_pending(q),
            final(self).spec_head() == new_head,
            final(self).spec_tail() == old(self).spec_tail(),
            final(self).spec_reserved() == old(self).spec_reserved(),
            final(self).spec_slots() == old(self).spec_slots(),
            final(self).spec_mask() == old(self).spec_mask(),
            final(self).spec_entries() == old(self).spec_entries(),
    {
        let ghost h = self.head;
        let ghost a = distance(self.head, new_head);
        let ghost old_view = self.view();
        proof {
            ring::lemma_pos_distance(h, new_head);
            ring::lemma_distance_after_pos(h, self.tail, a);
            ring::lemma_distance_after_pos(h, self.reserved, a);
            assert forall|k: int| 0 <= k < old_view.len() - a implies #[trigger] pos(new_head, k as u32) == pos(
                h,
                (a + k) as u32,
            ) by {
                ring::lemma_pos_pos(h, a, k as u32);
            }
            assert forall|q: u32| old(self).is_pending(q) implies distance(new_head, q) == distance(h, q) - a by {
                ring::lemma_distance_after_pos(h, q, a);
            }
        }
        self.head = new_head;
        assert(self.view() =~= old_view.skip(a as int));
    }
}

/// The completion ring as several popping threads share it: the kernel posts
/// events at the tail, and each thread that wants one loads the head, reads the
/// event in its slot and then tries to move the head past it with a
/// compare-and-swap. Each method is one atomic step, so every interleaving of the
/// threads' steps is a sequence of calls.
pub struct SharedCompletionRing<T> {
    ring: RingBuffer<T>,
}

impl<T: Copy> SharedCompletionRing<T> {
    pub closed spec fn spec_ring(&self) -> RingBuffer<T> {
        self.ring
    }

    pub open spec fn wf(&self) -> bool {
        self.spec_ring().wf()
    }

    /// The events not yet taken, oldest first.
    pub open spec fn view(&self) -> Seq<T> {
        self.spec_ring().view()
    }

    /// The shared head.
    pub open spec fn spec_head(&self) -> u32 {
        self.spec_ring().spec_head()
    }

    /// The event in the slot of position `p`, which a thread reads before its
    /// compare-and-swap.
    pub open spec fn at(&self, p: u32) -> T {
        self.spec_ring().spec_slots()[slot(p, self.spec_ring().spec_mask()) as int]
    }

    /// An empty ring whose head and tail stand at `start`, every slot holding
    /// `init`; `None` unless `ring_entries` is a power of two and `ring_mask` is
    /// one less.
    pub fn new(ring_entries: u32, ring_mask: u32, start: u32, init: T) -> (r: Option<Self>)
        ensures
            r is Some <==> ring::valid_geometry(ring_entries, ring_mask),
            r matches Some(q) ==> q.wf() && q.view() == Seq::<T>::empty() && q.spec_head() == start,
    {
        match RingBuffer::new(ring_entries, ring_mask, start, init) {
            Some(ring) => Some(SharedCompletionRing { ring }),
            None => None,
        }
    }

    /// The shared head, as a thread loads it.
    pub fn head(&self) -> (r: u32)
        ensures
            r == self.spec_head(),
    {
        self.ring.head()
    }

    /// The kernel posts an event at the tail, or hands it back when the ring is
    /// full. No event that a thread may still be reading changes.
    pub fn post(&mut self, event: T) -> (r: Result<(), T>)
        requires
            old(self).wf(),
        ensures
            final(self).wf(),
            r is Ok <==> old(self).view().len() < old(self).spec_ring().spec_entries(),
            r is Ok ==> final(self).view() == old(self).view().push(event),
            r is Err ==> *final(self) == *old(self),
            final(self).spec_head() == old(self).spec_head(),
    {
        self.ring.push(event)
    }

    /// A thread that loaded the head as `h` tries to take the event there: it
    /// succeeds only if the head still stands at `h` and an event is there, and
    /// then it alone gets that event, the oldest one, and the head moves past it.
    /// Otherwise nothing changes and the thread loads the head again.
    pub fn try_take(&mut self, h: u32) -> (r: Option<T>)
        requires
            old(self).wf(),
        ensures
            final(self).wf(),
            r is Some <==> (h == old(self).spec_head() && old(self).view().len() > 0),
            r matches Some(v) ==> {
                &&& v == old(self).view()[0]
                &&& v == old(self).at(h)
                &&& final(self).view() == old(self).view().drop_first()
                &&& final(self).spec_head() == pos(h, 1)
            },
            r is None ==> *final(self) == *old(self),
    {
        if h != self.ring.head() {
            return None;
        }
        match pop_step(h, self.ring.tail(), self.ring.mask()) {
            None => {
                assert(distance(h, h) == 0);
                None
            },
            Some((index, next)) => {
                proof {
                    ring::lemma_slot_bound(h, self.spec_ring().spec_mask());
                    let t = self.spec_ring().spec_tail();
                    assert(h != t ==> ((t - h) as u32) != 0) by (bit_vector);
                    assert(((h + 0u32) as u32) == h) by (bit_vector);
                    ring::lemma_distance_extend(h, h, 1);
                    assert(distance(h, h) == 0) by {
                        assert(((h - h) as u32) == 0) by (bit_vector);
                    }
                }
                let v = self.ring.slot_at(index);
                let ghost before = self.view();
                self.ring.advance_head(next);
                assert(before.skip(1) =~= before.drop_first());
                Some(v)
            },
        }
    }
}

/// Events are taken at most once and in order: after a successful take by a
/// thread that loaded head `h`, another take with the same `h` fails until the
/// head has gone round the whole `u32` range, and the next event handed out is
/// the one that was second oldest.
pub proof fn lemma_take_once_in_order<T: Copy>(before: SharedCompletionRing<T>, after: SharedCompletionRing<T>, h: u32)
    requires
        before.wf(),
        h == before.spec_head(),
        before.view().len() > 0,
        after.view() == before.view().drop_first(),
        after.spec_head() == pos(h, 1),
    ensures
        after.spec_head() != h,
        after.view().len() > 0 ==> after.view()[0] == before.view()[1],
{
    assert(((h + 1u32) as u32) != h) by (bit_vector);
}

} // verus!
