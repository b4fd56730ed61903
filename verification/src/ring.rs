//! A fixed-capacity single-producer/single-consumer ring of slots addressed by
//! free-running `u32` positions, the indexing scheme shared by the submission
//! queue, the completion queue and the kernel.
//!
//! A position `p` lives in slot `p & mask`; the queue holds the positions from
//! `head` (inclusive) to `tail` (exclusive), both of which wrap around at
//! `u32::MAX`. The capacity is a power of two, so the slot of a position is
//! its remainder modulo the capacity and `tail.wrapping_sub(head)` is the
//! number of queued elements even after the counters have wrapped.

use vstd::prelude::*;

verus! {

/// The position `i` steps after `p`, wrapping around at `u32::MAX`.
pub open spec fn pos(p: u32, i: u32) -> u32 {
    (p + i) as u32
}

/// The number of positions from `head` up to `tail`, counting modulo 2^32.
pub open spec fn distance(head: u32, tail: u32) -> u32 {
    (tail - head) as u32
}

/// The slot that position `p` occupies in a ring with the given mask.
pub open spec fn slot(p: u32, mask: u32) -> u32 {
    p & mask
}

/// `entries` is a power of two and `mask` selects the slot bits.
pub open spec fn valid_geometry(entries: u32, mask: u32) -> bool {
    &&& entries > 0
    &&& mask == entries - 1
    &&& entries & mask == 0
}

/// `wrapping_add` steps a position forward.
pub proof fn lemma_wrapping_add_is_pos(x: u32, y: u32)
    ensures
        vstd::wrapping::u32_specs::wrapping_add(x, y) == pos(x, y),
{
    assert((if x + y > u32::MAX { (x + y - 0x1_0000_0000) as u32 } else { (x + y) as u32 })
        == ((x + y) as u32)) by (bit_vector);
}

/// `wrapping_sub` counts the positions between two positions.
pub proof fn lemma_wrapping_sub_is_distance(x: u32, y: u32)
    ensures
        vstd::wrapping::u32_specs::wrapping_sub(x, y) == distance(y, x),
{
    assert((if x - y < 0 { (x - y + 0x1_0000_0000) as u32 } else { (x - y) as u32 })
        == ((x - y) as u32)) by (bit_vector);
}

/// A slot index is never larger than the mask.
pub proof fn lemma_slot_bound(p: u32, mask: u32)
    ensures
        slot(p, mask) <= mask,
{
    assert(p & mask <= mask) by (bit_vector);
}

/// Walking `distance(head, tail)` steps from `head` reaches `tail`.
pub proof fn lemma_pos_distance(head: u32, tail: u32)
    ensures
        pos(head, distance(head, tail)) == tail,
{
    assert(((head + ((tail - head) as u32)) as u32) == tail) by (bit_vector);
}

/// Steps compose.
pub proof fn lemma_pos_pos(p: u32, a: u32, b: u32)
    requires
        a + b <= u32::MAX,
    ensures
        pos(pos(p, a), b) == pos(p, (a + b) as u32),
{
    assert(a + b <= u32::MAX ==> ((((p + a) as u32) + b) as u32) == ((p + ((a + b) as u32)) as u32))
        by (bit_vector);
}

/// The distance from a position `a` steps further on shrinks by `a`.
pub proof fn lemma_distance_after_pos(head: u32, tail: u32, a: u32)
    requires
        a <= distance(head, tail),
    ensures
        distance(pos(head, a), tail) == distance(head, tail) - a,
{
    assert(a <= ((tail - head) as u32) ==> ((tail - ((head + a) as u32)) as u32) == ((tail - head)
        as u32) - a) by (bit_vector);
}

/// The distance to a position `a` steps beyond the tail grows by `a`.
pub proof fn lemma_distance_extend(head: u32, tail: u32, a: u32)
    requires
        distance(head, tail) + a <= u32::MAX,
    ensures
        distance(head, pos(tail, a)) == distance(head, tail) + a,
{
    assert(((tail - head) as u32) + a <= u32::MAX ==> ((((tail + a) as u32) - head) as u32) == ((
    tail - head) as u32) + a) by (bit_vector);
}

/// Within one lap of the ring, different positions occupy different slots.
pub proof fn lemma_slots_distinct(p: u32, i: u32, j: u32, entries: u32, mask: u32)
    requires
        valid_geometry(entries, mask),
        i < j < entries,
    ensures
        slot(pos(p, i), mask) != slot(pos(p, j), mask),
{
    assert(entries > 0 && mask == entries - 1 && (entries & mask) == 0 && i < j && j < entries
        ==> (((p + i) as u32) & mask) != (((p + j) as u32) & mask)) by (bit_vector);
}

/// A ring of `T` slots together with the free-running head and tail positions.
pub struct RingBuffer<T> {
    head: u32,
    tail: u32,
    ring_mask: u32,
    ring_entries: u32,
    slots: Vec<T>,
}

impl<T: Copy> RingBuffer<T> {
    /// The ring's shape is sound and at most one lap of positions is queued.
    pub open spec fn wf(&self) -> bool {
        &&& valid_geometry(self.spec_entries(), self.spec_mask())
        &&& self.spec_slots().len() == self.spec_entries()
        &&& distance(self.spec_head(), self.spec_tail()) <= self.spec_entries()
    }

    pub closed spec fn spec_head(&self) -> u32 {
        self.head
    }

    pub closed spec fn spec_tail(&self) -> u32 {
        self.tail
    }

    pub closed spec fn spec_mask(&self) -> u32 {
        self.ring_mask
    }

    pub closed spec fn spec_entries(&self) -> u32 {
        self.ring_entries
    }

    pub closed spec fn spec_slots(&self) -> Seq<T> {
        self.slots@
    }

    /// The queued elements, oldest first.
    pub open spec fn view(&self) -> Seq<T> {
        Seq::new(
            distance(self.spec_head(), self.spec_tail()) as nat,
            |i: int| self.spec_slots()[slot(pos(self.spec_head(), i as u32), self.spec_mask()) as int],
        )
    }

    /// Create an empty ring whose head and tail both stand at `start`, with every slot
    /// holding `init`. Returns `None` unless `ring_entries` is a power of two and
    /// `ring_mask == ring_entries - 1`.
    pub fn new(ring_entries: u32, ring_mask: u32, start: u32, init: T) -> (r: Option<Self>)
        ensures
            r is Some <==> valid_geometry(ring_entries, ring_mask),
            r matches Some(ring) ==> {
                &&& ring.wf()
                &&& ring.view() == Seq::<T>::empty()
                &&& ring.spec_head() == start
                &&& ring.spec_tail() == start
                &&& ring.spec_entries() == ring_entries
                &&& ring.spec_mask() == ring_mask
                &&& forall|k: int| 0 <= k < ring_entries ==> #[trigger] ring.spec_slots()[k] == init
            },
    {
        if ring_entries == 0 || ring_mask != ring_entries - 1 || ring_entries & ring_mask != 0 {
            return None;
        }
        let mut slots: Vec<T> = Vec::new();
        let mut k: u32 = 0;
        while k < ring_entries
            invariant
                k <= ring_entries,
                slots@.len() == k,
                forall|j: int| 0 <= j < k ==> #[trigger] slots@[j] == init,
            decreases ring_entries - k,
        {
            slots.push(init);
            k = k + 1;
        }
        let ring = RingBuffer { head: start, tail: start, ring_mask, ring_entries, slots };
        assert(ring.view() =~= Seq::<T>::empty());
        Some(ring)
    }

    /// The number of slots.
    pub fn capacity(&self) -> (r: usize)
        ensures
            r == self.spec_entries(),
    {
        self.ring_entries as usize
    }

    /// The number of queued elements.
    pub fn len(&self) -> (r: usize)
        requires
            self.wf(),
        ensures
            r == self.view().len(),
    {
        proof {
            lemma_wrapping_sub_is_distance(self.tail, self.head);
        }
        self.tail.wrapping_sub(self.head) as usize
    }

    pub fn head(&self) -> (r: u32)
        ensures
            r == self.spec_head(),
    {
        self.head
    }

    pub fn tail(&self) -> (r: u32)
        ensures
            r == self.spec_tail(),
    {
        self.tail
    }

    pub fn mask(&self) -> (r: u32)
        ensures
            r == self.spec_mask(),
    {
        self.ring_mask
    }

    /// The content of slot `index`, whether or not a queued element occupies it.
    pub fn slot_at(&self, index: u32) -> (r: T)
        requires
            self.wf(),
            index < self.spec_entries(),
        ensures
            r == self.spec_slots()[index as int],
    {
        self.slots[index as usize]
    }

    /// Append `value` at the tail unless all slots are taken, in which case `value` is
    /// handed back and nothing changes.
    pub fn push(&mut self, value: T) -> (r: Result<(), T>)
        requires
            old(self).wf(),
        ensures
            final(self).wf(),
            r is Ok <==> old(self).view().len() < old(self).spec_entries(),
            r is Ok ==> final(self).view() == old(self).view().push(value),
            r is Ok ==> final(self).spec_tail() == pos(old(self).spec_tail(), 1),
            r matches Err(v) ==> v == value && *final(self) == *old(self),
            final(self).spec_head() == old(self).spec_head(),
            final(self).spec_entries() == old(self).spec_entries(),
            final(self).spec_mask() == old(self).spec_mask(),
    {
        proof {
            lemma_wrapping_sub_is_distance(self.tail, self.head);
        }
        if self.tail.wrapping_sub(self.head) == self.ring_entries {
            return Err(value);
        }
        let ghost old_view = self.view();
        let ghost len = distance(self.head, self.tail);
        let idx = self.tail & self.ring_mask;
        proof {
            lemma_slot_bound(self.tail, self.ring_mask);
        }
        self.slots.set(idx as usize, value);
        proof {
            lemma_wrapping_add_is_pos(self.tail, 1);
        }
        let new_tail = self.tail.wrapping_add(1);
        proof {
            lemma_pos_distance(self.head, self.tail);
            lemma_distance_extend(self.head, self.tail, 1);
            assert forall|k: int| 0 <= k < len implies #[trigger] self.slots@[slot(
                pos(self.head, k as u32),
                self.ring_mask,
            ) as int] == old_view[k] by {
                lemma_slot_bound(pos(self.head, k as u32), self.ring_mask);
                lemma_slots_distinct(self.head, k as u32, len, self.ring_entries, self.ring_mask);
            }
        }
        self.tail = new_tail;
        assert(self.view() =~= old_view.push(value));
        Ok(())
    }

    /// Remove and return the element at the head, or `None` when the ring is empty.
    pub fn pop(&mut self) -> (r: Option<T>)
        requires
            old(self).wf(),
        ensures
            final(self).wf(),
            r is None <==> old(self).view().len() == 0,
            r is None ==> *final(self) == *old(self),
            r matches Some(v) ==> {
                &&& v == old(self).view()[0]
                &&& final(self).view() == old(self).view().drop_first()
                &&& final(self).spec_head() == pos(old(self).spec_head(), 1)
            },
            final(self).spec_tail() == old(self).spec_tail(),
            final(self).spec_slots() == old(self).spec_slots(),
            final(self).spec_entries() == old(self).spec_entries(),
            final(self).spec_mask() == old(self).spec_mask(),
    {
        if self.head == self.tail {
            assert(distance(self.head, self.tail) == 0);
            return None;
        }
        proof {
            let h = self.head;
            let t = self.tail;
            assert(h != t ==> ((t - h) as u32) != 0) by (bit_vector);
            lemma_slot_bound(self.head, self.ring_mask);
            lemma_wrapping_add_is_pos(self.head, 1);
        }
        let ghost old_view = self.view();
        let value = self.slots[(self.head & self.ring_mask) as usize];
        assert(value == old_view[0]) by {
            assert(pos(self.head, 0) == self.head) by {
                let h = self.head;
                assert(((h + 0u32) as u32) == h) by (bit_vector);
            }
        }
        let new_head = self.head.wrapping_add(1);
        proof {
            lemma_distance_after_pos(self.head, self.tail, 1);
            assert forall|k: int| 0 <= k < old_view.len() - 1 implies #[trigger] pos(new_head, k as u32) == pos(
                self.head,
                (k + 1) as u32,
            ) by {
                lemma_pos_pos(self.head, 1, k as u32);
            }
        }
        self.head = new_head;
        assert(self.view() =~= old_view.drop_first());
        Some(value)
    }

    /// The consumer has taken every element before position `new_head`.
    pub fn advance_head(&mut self, new_head: u32)
        requires
            old(self).wf(),
            distance(old(self).spec_head(), new_head) <= distance(
                old(self).spec_head(),
                old(self).spec_tail(),
            ),
        ensures
            final(self).wf(),
            final(self).view() == old(self).view().skip(
                distance(old(self).spec_head(), new_head) as int,
            ),
            final(self).spec_head() == new_head,
            final(self).spec_tail() == old(self).spec_tail(),
            final(self).spec_slots() == old(self).spec_slots(),
            final(self).spec_entries() == old(self).spec_entries(),
            final(self).spec_mask() == old(self).spec_mask(),
    {
        let ghost old_view = self.view();
        let ghost a = distance(self.head, new_head);
        proof {
            lemma_pos_distance(self.head, new_head);
            lemma_distance_after_pos(self.head, self.tail, a);
            assert forall|k: int| 0 <= k < old_view.len() - a implies #[trigger] pos(new_head, k as u32) == pos(
                self.head,
                (a + k) as u32,
            ) by {
                lemma_pos_pos(self.head, a, k as u32);
            }
        }
        self.head = new_head;
        assert(self.view() =~= old_view.skip(a as int));
    }
}

/// What a ring holds, in plain arithmetic: as many elements as the tail is ahead
/// of the head counting modulo 2^32, the `i`-th oldest in the slot that the low
/// bits (`& mask`) of position `head + i` (modulo 2^32) select.
pub proof fn lemma_ring_view<T: Copy>(r: RingBuffer<T>, i: int)
    requires
        r.wf(),
        0 <= i < r.view().len(),
    ensures
        r.view().len() == ((r.spec_tail() - r.spec_head()) as u32),
        r.view()[i] == r.spec_slots()[(((r.spec_head() + i) as u32) & r.spec_mask()) as int],
        ((((r.spec_head() + i) as u32) & r.spec_mask()) as int) < r.spec_slots().len(),
{
    lemma_slot_bound(pos(r.spec_head(), i as u32), r.spec_mask());
}

} // verus!
