//! Rings of provided buffers: the application publishes buffers that the
//! kernel picks from when a request asks it to select one.

use vstd::prelude::*;
use crate::sys::{self, BufReg};
use crate::types::BufRingEntry;

verus! {

/// The argument that registers a buffer ring of `ring_entries` entries at
/// `ring_addr` as buffer group `bgid`.
pub fn register_arg(ring_addr: u64, ring_entries: u16, bgid: u16) -> (r: BufReg)
    ensures
        r == (BufReg { ring_addr, ring_entries: ring_entries as u32, bgid }),
{
    BufReg { ring_addr, ring_entries: ring_entries as u32, bgid }
}

/// The argument that unregisters buffer group `bgid`.
pub fn unregister_arg(bgid: u16) -> (r: BufReg)
    ensures
        r == (BufReg { ring_addr: 0, ring_entries: 0, bgid }),
{
    BufReg { ring_addr: 0, ring_entries: 0, bgid }
}

proof fn lemma_u16_wrapping_add(x: u16, y: u16)
    ensures
        vstd::wrapping::u16_specs::wrapping_add(x, y) == (x + y) as u16,
{
    assert((if x + y > u16::MAX { (x + y - 0x1_0000) as u16 } else { (x + y) as u16 }) == ((x + y)
        as u16)) by (bit_vector);
}

proof fn lemma_u16_slot_bound(p: u16, mask: u16)
    ensures
        p & mask <= mask,
{
    assert(p & mask <= mask) by (bit_vector);
}

/// The ring's tail: the `resv` field of its first entry.
pub open spec fn spec_tail(entries: Seq<BufRingEntry>) -> u16 {
    entries[0].resv
}

/// Entry `e` describes the buffer `(bid, addr, len)`.
pub open spec fn describes(e: BufRingEntry, bid: u16, addr: u64, len: u32) -> bool {
    e.addr == addr && e.len == len && e.bid == bid
}

/// The entries of a ring after the buffer `(bid, addr, len)` has been written at
/// its tail and the tail advanced by one.
pub open spec fn spec_push(entries: Seq<BufRingEntry>, mask: u16, bid: u16, addr: u64, len: u32) -> Seq<
    BufRingEntry,
> {
    let idx = (spec_tail(entries) & mask) as int;
    let written = entries.update(idx, entries[idx].spec_with_desc(addr, len, bid));
    written.update(0, written[0].spec_with_resv((spec_tail(entries) + 1) as u16))
}

/// The entries of a ring after each buffer of `bufs` has been pushed in turn.
pub open spec fn spec_push_all(entries: Seq<BufRingEntry>, mask: u16, bufs: Seq<(u16, u64, usize)>) -> Seq<
    BufRingEntry,
>
    decreases bufs.len(),
{
    if bufs.len() == 0 {
        entries
    } else {
        let b = bufs.last();
        spec_push(spec_push_all(entries, mask, bufs.drop_last()), mask, b.0, b.1, b.2 as u32)
    }
}

/// A ring of provided buffers, as the application sees it: `len` entries, a
/// power of two, the first of which also carries the tail.
pub struct BufRing {
    entries: Vec<BufRingEntry>,
    len: u16,
    bgid: u16,
}

impl BufRing {
    pub closed spec fn spec_entries(&self) -> Seq<BufRingEntry> {
        self.entries@
    }

    pub closed spec fn spec_len(&self) -> u16 {
        self.len
    }

    pub closed spec fn spec_bgid(&self) -> u16 {
        self.bgid
    }

    pub open spec fn spec_mask(&self) -> u16 {
        (self.spec_len() - 1) as u16
    }

    pub open spec fn wf(&self) -> bool {
        &&& self.spec_len() > 0
        &&& self.spec_len() & self.spec_mask() == 0
        &&& self.spec_entries().len() == self.spec_len()
    }

    /// A zero-filled ring of `len` entries for buffer group `bgid`, with its tail at
    /// zero. Returns `None` unless `len` is a nonzero power of two.
    pub fn new(len: u16, bgid: u16) -> (r: Option<BufRing>)
        ensures
            r is Some <==> (len > 0 && len & ((len - 1) as u16) == 0),
            r matches Some(ring) ==> {
                &&& ring.wf()
                &&& ring.spec_len() == len
                &&& ring.spec_bgid() == bgid
                &&& forall|i: int| 0 <= i < len ==> #[trigger] ring.spec_entries()[i] == BufRingEntry::spec_zeroed()
            },
    {
        if len == 0 || len & (len - 1) != 0 {
            return None;
        }
        let mut entries: Vec<BufRingEntry> = Vec::new();
        let mut i: u16 = 0;
        while i < len
            invariant
                i <= len,
                entries@.len() == i,
                forall|j: int| 0 <= j < i ==> #[trigger] entries@[j] == BufRingEntry::spec_zeroed(),
            decreases len - i,
        {
            entries.push(BufRingEntry::zeroed());
            i = i + 1;
        }
        Some(BufRing { entries, len, bgid })
    }

    /// The number of allocated entries.
    pub fn capacity(&self) -> (r: usize)
        ensures
            r == self.spec_len(),
    {
        self.len as usize
    }

    /// The buffer group id of the ring.
    pub fn bgid(&self) -> (r: u16)
        ensures
            r == self.spec_bgid(),
    {
        self.bgid
    }

    fn mask(&self) -> (r: u16)
        requires
            self.wf(),
        ensures
            r == self.spec_mask(),
    {
        self.len - 1
    }

    /// The ring's tail: how many buffers have been published, modulo 2^16.
    pub fn tail(&self) -> (r: u16)
        requires
            self.wf(),
        ensures
            r == spec_tail(self.spec_entries()),
    {
        self.entries[0].resv()
    }

    /// The entries, for copying into the memory shared with the kernel.
    pub fn entries(&self) -> (r: &[BufRingEntry])
        ensures
            r@ == self.spec_entries(),
    {
        self.entries.as_slice()
    }

    /// Write the buffer `(bid, addr, len)` into the entry `offset` places past the
    /// tail, without publishing it.
    fn push_inner(&mut self, bid: u16, addr: u64, len: u32, offset: u16)
        requires
            old(self).wf(),
        ensures
            final(self).wf(),
            final(self).spec_len() == old(self).spec_len(),
            final(self).spec_bgid() == old(self).spec_bgid(),
            spec_tail(final(self).spec_entries()) == spec_tail(old(self).spec_entries()),
            final(self).spec_entries() == old(self).spec_entries().update(
                (((spec_tail(old(self).spec_entries()) + offset) as u16) & old(self).spec_mask()) as int,
                old(self).spec_entries()[(((spec_tail(old(self).spec_entries()) + offset) as u16)
                    & old(self).spec_mask()) as int].spec_with_desc(addr, len, bid),
            ),
    {
        let mask = self.mask();
        let tail = self.tail();
        proof {
            lemma_u16_wrapping_add(tail, offset);
            lemma_u16_slot_bound(tail.wrapping_add(offset), mask);
        }
        let index = (tail.wrapping_add(offset) & mask) as usize;
        let mut entry = self.entries[index];
        entry.set_addr(addr);
        entry.set_len(len);
        entry.set_bid(bid);
        self.entries.set(index, entry);
        assert(entry == old(self).spec_entries()[index as int].spec_with_desc(addr, len, bid));
        assert(self.entries@[0].resv == old(self).spec_entries()[0].resv);
    }

    /// Publish `count` more entries by advancing the tail, wrapping at 2^16.
    fn advance(&mut self, count: u16)
        requires
            old(self).wf(),
        ensures
            final(self).wf(),
            final(self).spec_len() == old(self).spec_len(),
            final(self).spec_bgid() == old(self).spec_bgid(),
            final(self).spec_entries() == old(self).spec_entries().update(
                0,
                old(self).spec_entries()[0].spec_with_resv(
                    (spec_tail(old(self).spec_entries()) + count) as u16,
                ),
            ),
    {
        let mut first = self.entries[0];
        let tail = first.resv();
        proof {
            lemma_u16_wrapping_add(tail, count);
        }
        first.set_resv(tail.wrapping_add(count));
        self.entries.set(0, first);
    }

    /// Publish the buffer at `addr` of `len` bytes under id `bid`.
    pub fn push(&mut self, bid: u16, addr: u64, len: usize)
        requires
            old(self).wf(),
        ensures
            final(self).wf(),
            final(self).spec_len() == old(self).spec_len(),
            final(self).spec_bgid() == old(self).spec_bgid(),
            final(self).spec_entries() == spec_push(
                old(self).spec_entries(),
                old(self).spec_mask(),
                bid,
                addr,
                len as u32,
            ),
    {
        self.push_inner(bid, addr, len as u32, 0);
        self.advance(1);
        proof {
            let t = spec_tail(old(self).spec_entries());
            assert(((t + 0u16) as u16) == t) by (bit_vector);
        }
        assert(self.spec_entries() =~= spec_push(
            old(self).spec_entries(),
            old(self).spec_mask(),
            bid,
            addr,
            len as u32,
        ));
    }

    /// Publish several buffers, each given as `(bid, addr, len)`, in order.
    pub fn push_multiple(&mut self, bufs: &[(u16, u64, usize)])
        requires
            old(self).wf(),
            bufs@.len() <= u16::MAX,
        ensures
            final(self).wf(),
            final(self).spec_len() == old(self).spec_len(),
            final(self).spec_bgid() == old(self).spec_bgid(),
            final(self).spec_entries() == spec_push_all(
                old(self).spec_entries(),
                old(self).spec_mask(),
                bufs@,
            ),
    {
        let ghost orig = self.spec_entries();
        let ghost t0 = spec_tail(orig);
        let ghost mask = self.spec_mask();
        proof {
            assert(with_tail(orig, t0) =~= orig);
            assert(bufs@.subrange(0, 0) =~= Seq::<(u16, u64, usize)>::empty());
        }
        let mut count: u16 = 0;
        let mut i: usize = 0;
        while i < bufs.len()
            invariant
                self.wf(),
                self.spec_len() == old(self).spec_len(),
                self.spec_bgid() == old(self).spec_bgid(),
                mask == self.spec_mask(),
                0 <= i <= bufs@.len(),
                bufs@.len() <= u16::MAX,
                count == i,
                spec_tail(self.spec_entries()) == t0,
                with_tail(self.spec_entries(), (t0 + count) as u16) == spec_push_all(
                    orig,
                    mask,
                    bufs@.subrange(0, i as int),
                ),
            decreases bufs@.len() - i,
        {
            let (bid, addr, len) = bufs[i];
            let ghost before = self.spec_entries();
            self.push_inner(bid, addr, len as u32, count);
            proof {
                let prefix = bufs@.subrange(0, i as int);
                let next = bufs@.subrange(0, i + 1);
                assert(next.drop_last() =~= prefix);
                assert(next.last() == (bid, addr, len));
                lemma_push_step(before, mask, t0, count, bid, addr, len as u32);
            }
            count = count + 1;
            i = i + 1;
        }
        let ghost before_advance = self.spec_entries();
        self.advance(count);
        assert(bufs@.subrange(0, bufs@.len() as int) =~= bufs@);
        assert(self.spec_entries() =~= with_tail(before_advance, (t0 + count) as u16));
    }
}

/// What one push does to a ring, in terms of its entries: the entry at the tail's
/// slot (the tail being the first entry's `resv`) now holds the buffer's address,
/// length and id, the tail has moved on by one (wrapping at 2^16), and every other
/// entry and field is as it was.
pub proof fn lemma_push_entries(entries: Seq<BufRingEntry>, mask: u16, bid: u16, addr: u64, len: u32)
    requires
        entries.len() == mask + 1,
    ensures
        ({
            let t = entries[0].resv;
            let idx = (t & mask) as int;
            let after = spec_push(entries, mask, bid, addr, len);
            &&& after.len() == entries.len()
            &&& after[idx].addr == addr
            &&& after[idx].len == len
            &&& after[idx].bid == bid
            &&& after[0].resv == (t + 1) as u16
            &&& idx != 0 ==> after[idx].resv == entries[idx].resv
            &&& forall|j: int| 0 <= j < entries.len() && j != idx && j != 0 ==> after[j] == entries[j]
            &&& idx != 0 ==> after[0].addr == entries[0].addr && after[0].len == entries[0].len
                && after[0].bid == entries[0].bid
        }),
{
    lemma_u16_slot_bound(entries[0].resv, mask);
}

/// Publishing one buffer through `push_multiple` does what `push` does.
pub proof fn lemma_push_multiple_single(
    entries: Seq<BufRingEntry>,
    mask: u16,
    bid: u16,
    addr: u64,
    len: usize,
)
    ensures
        spec_push_all(entries, mask, seq![(bid, addr, len)]) == spec_push(entries, mask, bid, addr, len as u32),
{
    let bufs = seq![(bid, addr, len)];
    assert(bufs.drop_last() =~= Seq::<(u16, u64, usize)>::empty());
    assert(spec_push_all(entries, mask, bufs.drop_last()) == entries);
}

/// Each push advances the tail by one, wrapping at 2^16, so after `n` buffers the
/// tail has moved `n` places.
pub proof fn lemma_push_all_tail(entries: Seq<BufRingEntry>, mask: u16, bufs: Seq<(u16, u64, usize)>)
    requires
        entries.len() == mask + 1,
        bufs.len() <= u16::MAX,
    ensures
        spec_push_all(entries, mask, bufs).len() == entries.len(),
        spec_tail(spec_push_all(entries, mask, bufs)) == (spec_tail(entries) + bufs.len()) as u16,
    decreases bufs.len(),
{
    if bufs.len() > 0 {
        lemma_push_all_tail(entries, mask, bufs.drop_last());
        let prev = spec_push_all(entries, mask, bufs.drop_last());
        let t = spec_tail(entries);
        let n = bufs.len();
        lemma_u16_slot_bound(spec_tail(prev), mask);
        lemma_u16_step(t, (n - 1) as u64);
    } else {
        assert(((spec_tail(entries) + 0) as u16) == spec_tail(entries));
    }
}

/// Buffers pushed in one go, no more of them than the ring has entries, each
/// land in the entry `i` places past the old tail, where the kernel looks for
/// the `i`-th of them; no later buffer of the batch overwrites an earlier one.
pub proof fn lemma_push_all_slots(entries: Seq<BufRingEntry>, mask: u16, bufs: Seq<(u16, u64, usize)>)
    requires
        entries.len() == mask + 1,
        mask < u16::MAX,
        ((mask + 1) as u16) & mask == 0,
        bufs.len() <= entries.len(),
    ensures
        forall|i: int|
            0 <= i < bufs.len() ==> describes(
                #[trigger] spec_push_all(entries, mask, bufs)[(((spec_tail(entries) + i) as u16) & mask) as int],
                bufs[i].0,
                bufs[i].1,
                bufs[i].2 as u32,
            ),
    decreases bufs.len(),
{
    if bufs.len() > 0 {
        let n = bufs.len() - 1;
        let prefix = bufs.drop_last();
        let prev = spec_push_all(entries, mask, prefix);
        let t0 = spec_tail(entries);
        lemma_push_all_slots(entries, mask, prefix);
        lemma_push_all_tail(entries, mask, prefix);
        let last_idx = (((t0 + n) as u16) & mask) as int;
        lemma_u16_slot_bound((t0 + n) as u16, mask);
        assert forall|i: int| 0 <= i < bufs.len() implies describes(
            #[trigger] spec_push_all(entries, mask, bufs)[(((t0 + i) as u16) & mask) as int],
            bufs[i].0,
            bufs[i].1,
            bufs[i].2 as u32,
        ) by {
            let idx = (((t0 + i) as u16) & mask) as int;
            lemma_u16_slot_bound((t0 + i) as u16, mask);
            if i < n {
                lemma_u16_slots_distinct(t0, i as u16, n as u16, mask);
                assert(prefix[i] == bufs[i]);
            }
        }
    }
}

/// Within one lap of a ring whose size is a power of two, different offsets from
/// the same tail land in different entries.
proof fn lemma_u16_slots_distinct(t: u16, i: u16, j: u16, mask: u16)
    by (bit_vector)
    requires
        mask < 0xffff,
        ((mask + 1) as u16) & mask == 0,
        i < j,
        j <= mask,
    ensures
        (((t + i) as u16) & mask) != (((t + j) as u16) & mask),
{
}

proof fn lemma_u16_step(t: u16, k: u64)
    by (bit_vector)
    requires
        k < 0x10000,
    ensures
        ((((t + k) as u16) + 1) as u16) == ((t + k + 1) as u16),
{
}

/// `entries` with the tail (the first entry's `resv`) set to `t`.
pub open spec fn with_tail(entries: Seq<BufRingEntry>, t: u16) -> Seq<BufRingEntry> {
    entries.update(0, entries[0].spec_with_resv(t))
}

/// Writing the buffer `count` places past the tail `t0` of `before` and then
/// setting the tail to `t0 + count + 1` gives the same entries as setting the tail
/// to `t0 + count` first and then pushing the buffer.
proof fn lemma_push_step(
    before: Seq<BufRingEntry>,
    mask: u16,
    t0: u16,
    count: u16,
    bid: u16,
    addr: u64,
    len: u32,
)
    requires
        before.len() == mask + 1,
        spec_tail(before) == t0,
        count < u16::MAX,
    ensures
        ({
            let idx = (((t0 + count) as u16) & mask) as int;
            let after = before.update(idx, before[idx].spec_with_desc(addr, len, bid));
            with_tail(after, (t0 + count + 1) as u16) == spec_push(
                with_tail(before, (t0 + count) as u16),
                mask,
                bid,
                addr,
                len,
            )
        }),
{
    let t = (t0 + count) as u16;
    let t1 = (t0 + count + 1) as u16;
    assert(count < u16::MAX ==> ((((t0 + count) as u16) + 1) as u16) == ((t0 + count + 1) as u16))
        by (bit_vector);
    lemma_u16_slot_bound(t, mask);
    let idx = (t & mask) as int;
    let after = before.update(idx, before[idx].spec_with_desc(addr, len, bid));
    let s = with_tail(before, t);
    assert(spec_tail(s) == t);
    assert(with_tail(after, t1) =~= spec_push(s, mask, bid, addr, len));
}

} // verus!
