//! The minimal `linux-io-uring` interface: one submission entry type with
//! a few setters, the free part of the submission ring as a queue to push
//! into, and the first eleven operations, each converted into an entry with
//! `From`. Arguments that the kernel reads from memory are given by address.

use vstd::prelude::*;
use crate::opcode::u32_to_be;
use crate::ring::{self, distance};
use crate::submit::EnterArgs;
use crate::sys::{self, Sqe};
use crate::types::Target;

verus! {

/// Submission entry flags: a bitwise OR of [`FIXED_FILE`], [`IO_DRAIN`] and
/// [`IO_LINK`].
pub type Flags = u8;

/// The entry's `fd` is an index into the registered file table.
pub const FIXED_FILE: Flags = sys::IOSQE_FIXED_FILE;
/// Issue the entry only after all earlier ones have completed.
pub const IO_DRAIN: Flags = sys::IOSQE_IO_DRAIN;
/// Start the next entry only after this one has completed.
pub const IO_LINK: Flags = sys::IOSQE_IO_LINK;

/// A submission queue entry.
#[derive(Debug, Clone, Copy)]
pub struct Entry(pub Sqe);

impl Entry {
    /// Add `flags` to the entry's flags.
    pub fn flags(self, flags: Flags) -> (r: Entry)
        ensures
            r.0 == (Sqe { flags: self.0.flags | flags, ..self.0 }),
    {
        let mut sqe = self.0;
        sqe.flags = sqe.flags | flags;
        Entry(sqe)
    }

    /// Set the I/O priority.
    pub fn ioprio(self, ioprio: u16) -> (r: Entry)
        ensures
            r.0 == (Sqe { ioprio, ..self.0 }),
    {
        let mut sqe = self.0;
        sqe.ioprio = ioprio;
        Entry(sqe)
    }

    /// Set the user data, handed back in the completion event.
    pub fn user_data(self, user_data: u64) -> (r: Entry)
        ensures
            r.0 == (Sqe { user_data, ..self.0 }),
    {
        let mut sqe = self.0;
        sqe.user_data = user_data;
        Entry(sqe)
    }
}

/// A file descriptor, never negative.
#[derive(Debug, Clone, Copy, PartialEq, Eq, Structural)]
pub struct Fd(i32);

impl Fd {
    #[verifier::type_invariant]
    spec fn inv(&self) -> bool {
        self.0 >= 0
    }

    pub closed spec fn spec_raw(&self) -> i32 {
        self.0
    }

    /// The descriptor `value`, or `Err(())` when it is negative (as the system calls
    /// that return a descriptor signal a failure).
    pub fn try_from(value: i32) -> (r: Result<Fd, ()>)
        ensures
            r is Ok <==> value >= 0,
            r matches Ok(fd) ==> fd.spec_raw() == value,
    {
        if value >= 0 {
            Ok(Fd(value))
        } else {
            Err(())
        }
    }

    /// The raw descriptor.
    pub fn as_raw_fd(&self) -> (r: i32)
        ensures
            r == self.spec_raw(),
            r >= 0,
    {
        proof {
            use_type_invariant(self);
        }
        self.0
    }
}

/// The free part of the submission ring, as loaded from the memory shared with
/// the kernel: the kernel's head, the application's tail, and the ring's mask
/// and size. Each push decides the slot its entry is written to and advances
/// the tail, which is published when the pushing is done.
pub struct AvailableQueue {
    head: u32,
    tail: u32,
    ring_mask: u32,
    ring_entries: u32,
}

impl AvailableQueue {
    pub closed spec fn spec_head(&self) -> u32 {
        self.head
    }

    pub closed spec fn spec_tail(&self) -> u32 {
        self.tail
    }

    pub closed spec fn spec_ring_mask(&self) -> u32 {
        self.ring_mask
    }

    pub closed spec fn spec_ring_entries(&self) -> u32 {
        self.ring_entries
    }

    /// The queue with the head, tail, mask and size loaded from the ring.
    pub fn new(head: u32, tail: u32, ring_mask: u32, ring_entries: u32) -> (r: AvailableQueue)
        ensures
            r.spec_head() == head,
            r.spec_tail() == tail,
            r.spec_ring_mask() == ring_mask,
            r.spec_ring_entries() == ring_entries,
    {
        AvailableQueue { head, tail, ring_mask, ring_entries }
    }

    /// The number of entries between the head and the tail. The count is taken
    /// without wrapping, so the tail must not have wrapped past the head.
    pub fn len(&self) -> (r: usize)
        requires
            self.spec_head() <= self.spec_tail(),
        ensures
            r == self.spec_tail() - self.spec_head(),
    {
        (self.tail - self.head) as usize
    }

    /// Whether the ring holds as many entries as it has slots (or more).
    pub fn is_full(&self) -> (r: bool)
        ensures
            r == (distance(self.spec_head(), self.spec_tail()) >= self.spec_ring_entries()),
    {
        proof {
            ring::lemma_wrapping_sub_is_distance(self.tail, self.head);
        }
        self.tail.wrapping_sub(self.head) >= self.ring_entries
    }

    /// The kernel's head, as loaded.
    pub fn head(&self) -> (r: u32)
        ensures
            r == self.spec_head(),
    {
        self.head
    }

    /// The tail to publish.
    pub fn tail(&self) -> (r: u32)
        ensures
            r == self.spec_tail(),
    {
        self.tail
    }

    /// Take the slot at the tail for `entry` and advance the tail: `Ok` with the
    /// slot index the entry is to be written to, or the entry back when the ring
    /// is full. The tail is advanced without wrapping.
    pub fn push(&mut self, entry: Entry) -> (r: Result<u32, Entry>)
        requires
            distance(old(self).spec_head(), old(self).spec_tail()) < old(self).spec_ring_entries()
                ==> old(self).spec_tail() < u32::MAX,
        ensures
            final(self).spec_head() == old(self).spec_head(),
            final(self).spec_ring_mask() == old(self).spec_ring_mask(),
            final(self).spec_ring_entries() == old(self).spec_ring_entries(),
            distance(old(self).spec_head(), old(self).spec_tail()) >= old(self).spec_ring_entries() ==> {
                &&& r matches Err(e) && e == entry
                &&& final(self).spec_tail() == old(self).spec_tail()
            },
            distance(old(self).spec_head(), old(self).spec_tail()) < old(self).spec_ring_entries() ==> {
                &&& r == Ok::<u32, Entry>(old(self).spec_tail() & old(self).spec_ring_mask())
                &&& final(self).spec_tail() == old(self).spec_tail() + 1
            },
    {
        if self.is_full() {
            Err(entry)
        } else {
            let index = self.tail & self.ring_mask;
            self.tail = self.tail + 1;
            Ok(index)
        }
    }
}

/// The arguments of the `io_uring_enter(2)` call that submits the `sq_len` queued
/// entries and waits for `want` of them, but never for more than were submitted.
pub fn submit_and_wait_args(sq_len: usize, want: usize) -> (r: EnterArgs)
    ensures
        r == (EnterArgs {
            to_submit: sq_len as u32,
            min_complete: (if want <= sq_len { want } else { sq_len }) as u32,
            flags: 0,
        }),
{
    let want = if want <= sq_len { want } else { sq_len };
    EnterArgs { to_submit: sq_len as u32, min_complete: want as u32, flags: 0 }
}

/// The word a 16-bit poll mask is stored as in its 32-bit field, given `be_one`,
/// the value `u32::to_be(1)` has on the machine: in the high half on a big-endian
/// machine (`be_one == 1`), in the low half on a little-endian one.
pub fn poll_events_word(mask: u16, be_one: u32) -> (r: u32)
    ensures
        r == (if be_one == 1 { (mask as u32) << 16u32 } else { mask as u32 }),
{
    if be_one == 1 {
        (mask as u32) << 16u32
    } else {
        mask as u32
    }
}

/// `sqe` aimed at file `t`: the descriptor, or the registered index together
/// with the fixed-file flag.
pub open spec fn with_target(sqe: Sqe, t: Target) -> Sqe {
    match t {
        Target::Fd(fd) => Sqe { fd, ..sqe },
        Target::Fixed(i) => Sqe { fd: i as i32, flags: sqe.flags | FIXED_FILE, ..sqe },
    }
}

fn assign_fd(sqe: &mut Sqe, t: Target)
    ensures
        *final(sqe) == with_target(*old(sqe), t),
{
    match t {
        Target::Fd(fd) => {
            sqe.fd = fd;
        },
        Target::Fixed(i) => {
            sqe.fd = i as i32;
            sqe.flags = sqe.flags | FIXED_FILE;
        },
    }
}

/// Do not perform any I/O.
#[derive(Debug, Default, Clone, Copy, PartialEq, Eq, Structural)]
pub struct Nop;

impl From<Nop> for Entry {
    fn from(op: Nop) -> (r: Entry)
        ensures
            r.0 == spec_nop(op),
    {
        let mut sqe = Sqe::zeroed();
        sqe.opcode = sys::IORING_OP_NOP;
        Entry(sqe)
    }
}

impl vstd::std_specs::convert::FromSpecImpl<Nop> for Entry {
    open spec fn obeys_from_spec() -> bool {
        true
    }

    open spec fn from_spec(op: Nop) -> Entry {
        Entry(spec_nop(op))
    }
}

/// The entry that `Nop` converts into.
pub open spec fn spec_nop(op: Nop) -> Sqe {
    Sqe { opcode: sys::IORING_OP_NOP, ..Sqe::spec_zeroed() }
}

/// Vectored read, equivalent to `preadv2(2)`. `iovec` is the address of the `iovec` array.
#[derive(Debug, Clone, Copy, PartialEq, Eq, Structural)]
pub struct Readv {
    pub fd: Target,
    pub iovec: u64,
    pub len: u32,
    pub offset: i64,
    pub rw_flags: i32,
}

impl Default for Readv {
    /// No file (`-1`) and all other fields zero.
    fn default() -> (r: Readv)
        ensures
            r == (Readv { fd: Target::Fd(-1i32), iovec: 0u64, len: 0u32, offset: 0i64, rw_flags: 0i32 }),
    {
        Readv { fd: Target::Fd(-1i32), iovec: 0u64, len: 0u32, offset: 0i64, rw_flags: 0i32 }
    }
}

impl From<Readv> for Entry {
    fn from(op: Readv) -> (r: Entry)
        ensures
            r.0 == spec_readv(op),
    {
        let mut sqe = Sqe::zeroed();
        sqe.opcode = sys::IORING_OP_READV;
        assign_fd(&mut sqe, op.fd);
        sqe.addr = op.iovec;
        sqe.len = op.len;
        sqe.off = op.offset as u64;
        sqe.op_flags = op.rw_flags as u32;
        Entry(sqe)
    }
}

impl vstd::std_specs::convert::FromSpecImpl<Readv> for Entry {
    open spec fn obeys_from_spec() -> bool {
        true
    }

    open spec fn from_spec(op: Readv) -> Entry {
        Entry(spec_readv(op))
    }
}

/// The entry that `Readv` converts into.
pub open spec fn spec_readv(op: Readv) -> Sqe {
    let s = Sqe { opcode: sys::IORING_OP_READV, ..Sqe::spec_zeroed() };
    let s = with_target(s, op.fd);
    let s = Sqe { addr: op.iovec, ..s };
    let s = Sqe { len: op.len, ..s };
    let s = Sqe { off: (op.offset as u64), ..s };
    let s = Sqe { op_flags: (op.rw_flags as u32), ..s };
    s
}

/// Vectored write, equivalent to `pwritev2(2)`. `iovec` is the address of the `iovec` array.
#[derive(Debug, Clone, Copy, PartialEq, Eq, Structural)]
pub struct Writev {
    pub fd: Target,
    pub iovec: u64,
    pub len: u32,
    pub offset: i64,
    pub rw_flags: i32,
}

impl Default for Writev {
    /// No file (`-1`) and all other fields zero.
    fn default() -> (r: Writev)
        ensures
            r == (Writev { fd: Target::Fd(-1i32), iovec: 0u64, len: 0u32, offset: 0i64, rw_flags: 0i32 }),
    {
        Writev { fd: Target::Fd(-1i32), iovec: 0u64, len: 0u32, offset: 0i64, rw_flags: 0i32 }
    }
}

impl From<Writev> for Entry {
    fn from(op: Writev) -> (r: Entry)
        ensures
            r.0 == spec_writev(op),
    {
        let mut sqe = Sqe::zeroed();
        sqe.opcode = sys::IORING_OP_WRITEV;
        assign_fd(&mut sqe, op.fd);
        sqe.addr = op.iovec;
        sqe.len = op.len;
        sqe.off = op.offset as u64;
        sqe.op_flags = op.rw_flags as u32;
        Entry(sqe)
    }
}

impl vstd::std_specs::convert::FromSpecImpl<Writev> for Entry {
    open spec fn obeys_from_spec() -> bool {
        true
    }

    open spec fn from_spec(op: Writev) -> Entry {
        Entry(spec_writev(op))
    }
}

/// The entry that `Writev` converts into.
pub open spec fn spec_writev(op: Writev) -> Sqe {
    let s = Sqe { opcode: sys::IORING_OP_WRITEV, ..Sqe::spec_zeroed() };
    let s = with_target(s, op.fd);
    let s = Sqe { addr: op.iovec, ..s };
    let s = Sqe { len: op.len, ..s };
    let s = Sqe { off: (op.offset as u64), ..s };
    let s = Sqe { op_flags: (op.rw_flags as u32), ..s };
    s
}

/// File sync, equivalent to `fsync(2)`.
#[derive(Debug, Clone, Copy, PartialEq, Eq, Structural)]
pub struct Fsync {
    pub fd: Target,
    pub flags: u32,
}

impl Default for Fsync {
    /// No file (`-1`) and all other fields zero.
    fn default() -> (r: Fsync)
        ensures
            r == (Fsync { fd: Target::Fd(-1i32), flags: 0u32 }),
    {
        Fsync { fd: Target::Fd(-1i32), flags: 0u32 }
    }
}

impl From<Fsync> for Entry {
    fn from(op: Fsync) -> (r: Entry)
        ensures
            r.0 == spec_fsync(op),
    {
        let mut sqe = Sqe::zeroed();
        sqe.opcode = sys::IORING_OP_FSYNC;
        assign_fd(&mut sqe, op.fd);
        sqe.op_flags = op.flags;
        Entry(sqe)
    }
}

impl vstd::std_specs::convert::FromSpecImpl<Fsync> for Entry {
    open spec fn obeys_from_spec() -> bool {
        true
    }

    open spec fn from_spec(op: Fsync) -> Entry {
        Entry(spec_fsync(op))
    }
}

/// The entry that `Fsync` converts into.
pub open spec fn spec_fsync(op: Fsync) -> Sqe {
    let s = Sqe { opcode: sys::IORING_OP_FSYNC, ..Sqe::spec_zeroed() };
    let s = with_target(s, op.fd);
    let s = Sqe { op_flags: op.flags, ..s };
    s
}

/// Read into a registered buffer; `buf` is an address inside buffer `buf_index`.
#[derive(Debug, Clone, Copy, PartialEq, Eq, Structural)]
pub struct ReadFixed {
    pub fd: Target,
    pub buf: u64,
    pub len: u32,
    pub offset: i64,
    pub rw_flags: i32,
    pub buf_index: u16,
}

impl Default for ReadFixed {
    /// No file (`-1`) and all other fields zero.
    fn default() -> (r: ReadFixed)
        ensures
            r == (ReadFixed { fd: Target::Fd(-1i32), buf: 0u64, len: 0u32, offset: 0i64, rw_flags: 0i32, buf_index: 0u16 }),
    {
        ReadFixed { fd: Target::Fd(-1i32), buf: 0u64, len: 0u32, offset: 0i64, rw_flags: 0i32, buf_index: 0u16 }
    }
}

impl From<ReadFixed> for Entry {
    fn from(op: ReadFixed) -> (r: Entry)
        ensures
            r.0 == spec_readfixed(op),
    {
        let mut sqe = Sqe::zeroed();
        sqe.opcode = sys::IORING_OP_READ_FIXED;
        assign_fd(&mut sqe, op.fd);
        sqe.addr = op.buf;
        sqe.len = op.len;
        sqe.off = op.offset as u64;
        sqe.op_flags = op.rw_flags as u32;
        sqe.buf_index = op.buf_index;
        Entry(sqe)
    }
}

impl vstd::std_specs::convert::FromSpecImpl<ReadFixed> for Entry {
    open spec fn obeys_from_spec() -> bool {
        true
    }

    open spec fn from_spec(op: ReadFixed) -> Entry {
        Entry(spec_readfixed(op))
    }
}

/// The entry that `ReadFixed` converts into.
pub open spec fn spec_readfixed(op: ReadFixed) -> Sqe {
    let s = Sqe { opcode: sys::IORING_OP_READ_FIXED, ..Sqe::spec_zeroed() };
    let s = with_target(s, op.fd);
    let s = Sqe { addr: op.buf, ..s };
    let s = Sqe { len: op.len, ..s };
    let s = Sqe { off: (op.offset as u64), ..s };
    let s = Sqe { op_flags: (op.rw_flags as u32), ..s };
    let s = Sqe { buf_index: op.buf_index, ..s };
    s
}

/// Write from a registered buffer; `buf` is an address inside buffer `buf_index`.
#[derive(Debug, Clone, Copy, PartialEq, Eq, Structural)]
pub struct WriteFixed {
    pub fd: Target,
    pub buf: u64,
    pub len: u32,
    pub offset: i64,
    pub buf_index: u16,
    pub rw_flags: i32,
}

impl Default for WriteFixed {
    /// No file (`-1`) and all other fields zero.
    fn default() -> (r: WriteFixed)
        ensures
            r == (WriteFixed { fd: Target::Fd(-1i32), buf: 0u64, len: 0u32, offset: 0i64, buf_index: 0u16, rw_flags: 0i32 }),
    {
        WriteFixed { fd: Target::Fd(-1i32), buf: 0u64, len: 0u32, offset: 0i64, buf_index: 0u16, rw_flags: 0i32 }
    }
}

impl From<WriteFixed> for Entry {
    fn from(op: WriteFixed) -> (r: Entry)
        ensures
            r.0 == spec_writefixed(op),
    {
        let mut sqe = Sqe::zeroed();
        sqe.opcode = sys::IORING_OP_WRITE_FIXED;
        assign_fd(&mut sqe, op.fd);
        sqe.addr = op.buf;
        sqe.len = op.len;
        sqe.off = op.offset as u64;
        sqe.buf_index = op.buf_index;
        sqe.op_flags = op.rw_flags as u32;
        Entry(sqe)
    }
}

impl vstd::std_specs::convert::FromSpecImpl<WriteFixed> for Entry {
    open spec fn obeys_from_spec() -> bool {
        true
    }

    open spec fn from_spec(op: WriteFixed) -> Entry {
        Entry(spec_writefixed(op))
    }
}

/// The entry that `WriteFixed` converts into.
pub open spec fn spec_writefixed(op: WriteFixed) -> Sqe {
    let s = Sqe { opcode: sys::IORING_OP_WRITE_FIXED, ..Sqe::spec_zeroed() };
    let s = with_target(s, op.fd);
    let s = Sqe { addr: op.buf, ..s };
    let s = Sqe { len: op.len, ..s };
    let s = Sqe { off: (op.offset as u64), ..s };
    let s = Sqe { buf_index: op.buf_index, ..s };
    let s = Sqe { op_flags: (op.rw_flags as u32), ..s };
    s
}

/// Poll the file for the events in `mask`.
#[derive(Debug, Clone, Copy, PartialEq, Eq, Structural)]
pub struct PollAdd {
    pub fd: Target,
    pub mask: u16,
}

impl Default for PollAdd {
    /// No file (`-1`) and all other fields zero.
    fn default() -> (r: PollAdd)
        ensures
            r == (PollAdd { fd: Target::Fd(-1i32), mask: 0u16 }),
    {
        PollAdd { fd: Target::Fd(-1i32), mask: 0u16 }
    }
}

impl From<PollAdd> for Entry {
    fn from(op: PollAdd) -> (r: Entry)
        ensures
            r.0 == spec_polladd(op) || r.0 == (Sqe { op_flags: (op.mask as u32) << 16u32, ..spec_polladd(op) }),
    {
        let mut sqe = Sqe::zeroed();
        sqe.opcode = sys::IORING_OP_POLL_ADD;
        assign_fd(&mut sqe, op.fd);
        sqe.op_flags = op.mask as u32;
        sqe.op_flags = poll_events_word(op.mask, u32_to_be(1));
        Entry(sqe)
    }
}

impl vstd::std_specs::convert::FromSpecImpl<PollAdd> for Entry {
    /// The `u16` poll mask lands in the low half of its `u32` field on a
    /// little-endian machine and in the high half on a big-endian one, so
    /// the conversion is stated by the `ensures` of `from` instead.
    open spec fn obeys_from_spec() -> bool {
        false
    }

    open spec fn from_spec(op: PollAdd) -> Entry {
        Entry(spec_polladd(op))
    }
}

/// The entry that `PollAdd` converts into.
/// (with the mask in the low half of its field, as on a little-endian machine).
pub open spec fn spec_polladd(op: PollAdd) -> Sqe {
    let s = Sqe { opcode: sys::IORING_OP_POLL_ADD, ..Sqe::spec_zeroed() };
    let s = with_target(s, op.fd);
    let s = Sqe { op_flags: op.mask as u32, ..s };
    s
}

/// Remove an existing poll request, identified by its user data.
#[derive(Debug, Clone, Copy, PartialEq, Eq, Structural)]
pub struct PollRemove {
    pub user_data: u64,
}

impl Default for PollRemove {
    /// No file (`-1`) and all other fields zero.
    fn default() -> (r: PollRemove)
        ensures
            r == (PollRemove { user_data: 0u64 }),
    {
        PollRemove { user_data: 0u64 }
    }
}

impl From<PollRemove> for Entry {
    fn from(op: PollRemove) -> (r: Entry)
        ensures
            r.0 == spec_pollremove(op),
    {
        let mut sqe = Sqe::zeroed();
        sqe.opcode = sys::IORING_OP_POLL_REMOVE;
        sqe.addr = op.user_data;
        Entry(sqe)
    }
}

impl vstd::std_specs::convert::FromSpecImpl<PollRemove> for Entry {
    open spec fn obeys_from_spec() -> bool {
        true
    }

    open spec fn from_spec(op: PollRemove) -> Entry {
        Entry(spec_pollremove(op))
    }
}

/// The entry that `PollRemove` converts into.
pub open spec fn spec_pollremove(op: PollRemove) -> Sqe {
    let s = Sqe { opcode: sys::IORING_OP_POLL_REMOVE, ..Sqe::spec_zeroed() };
    let s = Sqe { addr: op.user_data, ..s };
    s
}

/// Sync a file segment with disk, equivalent to `sync_file_range(2)`.
#[derive(Debug, Clone, Copy, PartialEq, Eq, Structural)]
pub struct SyncFileRange {
    pub fd: Target,
    pub len: u32,
    pub offset: i64,
    pub flags: u32,
}

impl Default for SyncFileRange {
    /// No file (`-1`) and all other fields zero.
    fn default() -> (r: SyncFileRange)
        ensures
            r == (SyncFileRange { fd: Target::Fd(-1i32), len: 0u32, offset: 0i64, flags: 0u32 }),
    {
        SyncFileRange { fd: Target::Fd(-1i32), len: 0u32, offset: 0i64, flags: 0u32 }
    }
}

impl From<SyncFileRange> for Entry {
    fn from(op: SyncFileRange) -> (r: Entry)
        ensures
            r.0 == spec_syncfilerange(op),
    {
        let mut sqe = Sqe::zeroed();
        sqe.opcode = sys::IORING_OP_SYNC_FILE_RANGE;
        assign_fd(&mut sqe, op.fd);
        sqe.len = op.len;
        sqe.off = op.offset as u64;
        sqe.op_flags = op.flags;
        Entry(sqe)
    }
}

impl vstd::std_specs::convert::FromSpecImpl<SyncFileRange> for Entry {
    open spec fn obeys_from_spec() -> bool {
        true
    }

    open spec fn from_spec(op: SyncFileRange) -> Entry {
        Entry(spec_syncfilerange(op))
    }
}

/// The entry that `SyncFileRange` converts into.
pub open spec fn spec_syncfilerange(op: SyncFileRange) -> Sqe {
    let s = Sqe { opcode: sys::IORING_OP_SYNC_FILE_RANGE, ..Sqe::spec_zeroed() };
    let s = with_target(s, op.fd);
    let s = Sqe { len: op.len, ..s };
    let s = Sqe { off: (op.offset as u64), ..s };
    let s = Sqe { op_flags: op.flags, ..s };
    s
}

/// Send a message on a socket, equivalent to `sendmsg(2)`. `msg` is the address of the `msghdr`.
#[derive(Debug, Clone, Copy, PartialEq, Eq, Structural)]
pub struct SendMsg {
    pub fd: Target,
    pub msg: u64,
    pub flags: u32,
}

impl Default for SendMsg {
    /// No file (`-1`) and all other fields zero.
    fn default() -> (r: SendMsg)
        ensures
            r == (SendMsg { fd: Target::Fd(-1i32), msg: 0u64, flags: 0u32 }),
    {
        SendMsg { fd: Target::Fd(-1i32), msg: 0u64, flags: 0u32 }
    }
}

impl From<SendMsg> for Entry {
    fn from(op: SendMsg) -> (r: Entry)
        ensures
            r.0 == spec_sendmsg(op),
    {
        let mut sqe = Sqe::zeroed();
        sqe.opcode = sys::IORING_OP_SENDMSG;
        assign_fd(&mut sqe, op.fd);
        sqe.addr = op.msg;
        sqe.op_flags = op.flags;
        sqe.len = 1;
        Entry(sqe)
    }
}

impl vstd::std_specs::convert::FromSpecImpl<SendMsg> for Entry {
    open spec fn obeys_from_spec() -> bool {
        true
    }

    open spec fn from_spec(op: SendMsg) -> Entry {
        Entry(spec_sendmsg(op))
    }
}

/// The entry that `SendMsg` converts into.
pub open spec fn spec_sendmsg(op: SendMsg) -> Sqe {
    let s = Sqe { opcode: sys::IORING_OP_SENDMSG, ..Sqe::spec_zeroed() };
    let s = with_target(s, op.fd);
    let s = Sqe { addr: op.msg, ..s };
    let s = Sqe { op_flags: op.flags, ..s };
    let s = Sqe { len: 1u32, ..s };
    s
}

/// Receive a message on a socket, equivalent to `recvmsg(2)`. `msg` is the address of the `msghdr`.
#[derive(Debug, Clone, Copy, PartialEq, Eq, Structural)]
pub struct RecvMsg {
    pub fd: Target,
    pub msg: u64,
    pub flags: u32,
}

impl Default for RecvMsg {
    /// No file (`-1`) and all other fields zero.
    fn default() -> (r: RecvMsg)
        ensures
            r == (RecvMsg { fd: Target::Fd(-1i32), msg: 0u64, flags: 0u32 }),
    {
        RecvMsg { fd: Target::Fd(-1i32), msg: 0u64, flags: 0u32 }
    }
}

impl From<RecvMsg> for Entry {
    fn from(op: RecvMsg) -> (r: Entry)
        ensures
            r.0 == spec_recvmsg(op),
    {
        let mut sqe = Sqe::zeroed();
        sqe.opcode = sys::IORING_OP_RECVMSG;
        assign_fd(&mut sqe, op.fd);
        sqe.addr = op.msg;
        sqe.op_flags = op.flags;
        sqe.len = 1;
        Entry(sqe)
    }
}

impl vstd::std_specs::convert::FromSpecImpl<RecvMsg> for Entry {
    open spec fn obeys_from_spec() -> bool {
        true
    }

    open spec fn from_spec(op: RecvMsg) -> Entry {
        Entry(spec_recvmsg(op))
    }
}

/// The entry that `RecvMsg` converts into.
pub open spec fn spec_recvmsg(op: RecvMsg) -> Sqe {
    let s = Sqe { opcode: sys::IORING_OP_RECVMSG, ..Sqe::spec_zeroed() };
    let s = with_target(s, op.fd);
    let s = Sqe { addr: op.msg, ..s };
    let s = Sqe { op_flags: op.flags, ..s };
    let s = Sqe { len: 1u32, ..s };
    s
}

/// OR-ing into a zero byte gives the other operand.
proof fn lemma_zero_or_u8(x: u8)
    by (bit_vector)
    ensures
        0u8 | x == x,
{
}

/// What the entry converted from a [`Nop`] holds: each field of the submission
/// entry, from the operation's arguments or zero.
pub proof fn lemma_nop_entry(op: Nop)
    ensures
        spec_nop(op).opcode == sys::IORING_OP_NOP,
        spec_nop(op).flags == 0u8,
        spec_nop(op).ioprio == 0u16,
        spec_nop(op).fd == 0i32,
        spec_nop(op).off == 0u64,
        spec_nop(op).addr == 0u64,
        spec_nop(op).len == 0u32,
        spec_nop(op).op_flags == 0u32,
        spec_nop(op).user_data == 0u64,
        spec_nop(op).buf_index == 0u16,
        spec_nop(op).personality == 0u16,
        spec_nop(op).splice_fd_in == 0i32,
        spec_nop(op).addr3 == 0u64,
        spec_nop(op).pad2 == 0u64,
{
}

/// What the entry converted from a [`Readv`] holds: each field of the submission
/// entry, from the operation's arguments or zero.
pub proof fn lemma_readv_entry(op: Readv)
    ensures
        spec_readv(op).opcode == sys::IORING_OP_READV,
        spec_readv(op).flags == (if op.fd is Fixed { FIXED_FILE } else { 0u8 }),
        spec_readv(op).ioprio == 0u16,
        spec_readv(op).fd == (match op.fd { Target::Fd(v) => v, Target::Fixed(i) => i as i32 }),
        spec_readv(op).off == (op.offset as u64),
        spec_readv(op).addr == op.iovec,
        spec_readv(op).len == op.len,
        spec_readv(op).op_flags == (op.rw_flags as u32),
        spec_readv(op).user_data == 0u64,
        spec_readv(op).buf_index == 0u16,
        spec_readv(op).personality == 0u16,
        spec_readv(op).splice_fd_in == 0i32,
        spec_readv(op).addr3 == 0u64,
        spec_readv(op).pad2 == 0u64,
{
    lemma_zero_or_u8(FIXED_FILE);
}

/// What the entry converted from a [`Writev`] holds: each field of the submission
/// entry, from the operation's arguments or zero.
pub proof fn lemma_writev_entry(op: Writev)
    ensures
        spec_writev(op).opcode == sys::IORING_OP_WRITEV,
        spec_writev(op).flags == (if op.fd is Fixed { FIXED_FILE } else { 0u8 }),
        spec_writev(op).ioprio == 0u16,
        spec_writev(op).fd == (match op.fd { Target::Fd(v) => v, Target::Fixed(i) => i as i32 }),
        spec_writev(op).off == (op.offset as u64),
        spec_writev(op).addr == op.iovec,
        spec_writev(op).len == op.len,
        spec_writev(op).op_flags == (op.rw_flags as u32),
        spec_writev(op).user_data == 0u64,
        spec_writev(op).buf_index == 0u16,
        spec_writev(op).personality == 0u16,
        spec_writev(op).splice_fd_in == 0i32,
        spec_writev(op).addr3 == 0u64,
        spec_writev(op).pad2 == 0u64,
{
    lemma_zero_or_u8(FIXED_FILE);
}

/// What the entry converted from a [`Fsync`] holds: each field of the submission
/// entry, from the operation's arguments or zero.
pub proof fn lemma_fsync_entry(op: Fsync)
    ensures
        spec_fsync(op).opcode == sys::IORING_OP_FSYNC,
        spec_fsync(op).flags == (if op.fd is Fixed { FIXED_FILE } else { 0u8 }),
        spec_fsync(op).ioprio == 0u16,
        spec_fsync(op).fd == (match op.fd { Target::Fd(v) => v, Target::Fixed(i) => i as i32 }),
        spec_fsync(op).off == 0u64,
        spec_fsync(op).addr == 0u64,
        spec_fsync(op).len == 0u32,
        spec_fsync(op).op_flags == op.flags,
        spec_fsync(op).user_data == 0u64,
        spec_fsync(op).buf_index == 0u16,
        spec_fsync(op).personality == 0u16,
        spec_fsync(op).splice_fd_in == 0i32,
        spec_fsync(op).addr3 == 0u64,
        spec_fsync(op).pad2 == 0u64,
{
    lemma_zero_or_u8(FIXED_FILE);
}

/// What the entry converted from a [`ReadFixed`] holds: each field of the submission
/// entry, from the operation's arguments or zero.
pub proof fn lemma_read_fixed_entry(op: ReadFixed)
    ensures
        spec_readfixed(op).opcode == sys::IORING_OP_READ_FIXED,
        spec_readfixed(op).flags == (if op.fd is Fixed { FIXED_FILE } else { 0u8 }),
        spec_readfixed(op).ioprio == 0u16,
        spec_readfixed(op).fd == (match op.fd { Target::Fd(v) => v, Target::Fixed(i) => i as i32 }),
        spec_readfixed(op).off == (op.offset as u64),
        spec_readfixed(op).addr == op.buf,
        spec_readfixed(op).len == op.len,
        spec_readfixed(op).op_flags == (op.rw_flags as u32),
        spec_readfixed(op).user_data == 0u64,
        spec_readfixed(op).buf_index == op.buf_index,
        spec_readfixed(op).personality == 0u16,
        spec_readfixed(op).splice_fd_in == 0i32,
        spec_readfixed(op).addr3 == 0u64,
        spec_readfixed(op).pad2 == 0u64,
{
    lemma_zero_or_u8(FIXED_FILE);
}

/// What the entry converted from a [`WriteFixed`] holds: each field of the submission
/// entry, from the operation's arguments or zero.
pub proof fn lemma_write_fixed_entry(op: WriteFixed)
    ensures
        spec_writefixed(op).opcode == sys::IORING_OP_WRITE_FIXED,
        spec_writefixed(op).flags == (if op.fd is Fixed { FIXED_FILE } else { 0u8 }),
        spec_writefixed(op).ioprio == 0u16,
        spec_writefixed(op).fd == (match op.fd { Target::Fd(v) => v, Target::Fixed(i) => i as i32 }),
        spec_writefixed(op).off == (op.offset as u64),
        spec_writefixed(op).addr == op.buf,
        spec_writefixed(op).len == op.len,
        spec_writefixed(op).op_flags == (op.rw_flags as u32),
        spec_writefixed(op).user_data == 0u64,
        spec_writefixed(op).buf_index == op.buf_index,
        spec_writefixed(op).personality == 0u16,
        spec_writefixed(op).splice_fd_in == 0i32,
        spec_writefixed(op).addr3 == 0u64,
        spec_writefixed(op).pad2 == 0u64,
{
    lemma_zero_or_u8(FIXED_FILE);
}

/// What the entry converted from a [`PollAdd`] holds: each field of the submission
/// entry, from the operation's arguments or zero (with the mask in the low half,
/// where a little-endian machine puts it).
pub proof fn lemma_poll_add_entry(op: PollAdd)
    ensures
        spec_polladd(op).opcode == sys::IORING_OP_POLL_ADD,
        spec_polladd(op).flags == (if op.fd is Fixed { FIXED_FILE } else { 0u8 }),
        spec_polladd(op).ioprio == 0u16,
        spec_polladd(op).fd == (match op.fd { Target::Fd(v) => v, Target::Fixed(i) => i as i32 }),
        spec_polladd(op).off == 0u64,
        spec_polladd(op).addr == 0u64,
        spec_polladd(op).len == 0u32,
        spec_polladd(op).op_flags == (op.mask as u32),
        spec_polladd(op).user_data == 0u64,
        spec_polladd(op).buf_index == 0u16,
        spec_polladd(op).personality == 0u16,
        spec_polladd(op).splice_fd_in == 0i32,
        spec_polladd(op).addr3 == 0u64,
        spec_polladd(op).pad2 == 0u64,
{
    lemma_zero_or_u8(FIXED_FILE);
}

/// What the entry converted from a [`PollRemove`] holds: each field of the submission
/// entry, from the operation's arguments or zero.
pub proof fn lemma_poll_remove_entry(op: PollRemove)
    ensures
        spec_pollremove(op).opcode == sys::IORING_OP_POLL_REMOVE,
        spec_pollremove(op).flags == 0u8,
        spec_pollremove(op).ioprio == 0u16,
        spec_pollremove(op).fd == 0i32,
        spec_pollremove(op).off == 0u64,
        spec_pollremove(op).addr == op.user_data,
        spec_pollremove(op).len == 0u32,
        spec_pollremove(op).op_flags == 0u32,
        spec_pollremove(op).user_data == 0u64,
        spec_pollremove(op).buf_index == 0u16,
        spec_pollremove(op).personality == 0u16,
        spec_pollremove(op).splice_fd_in == 0i32,
        spec_pollremove(op).addr3 == 0u64,
        spec_pollremove(op).pad2 == 0u64,
{
}

/// What the entry converted from a [`SyncFileRange`] holds: each field of the submission
/// entry, from the operation's arguments or zero.
pub proof fn lemma_sync_file_range_entry(op: SyncFileRange)
    ensures
        spec_syncfilerange(op).opcode == sys::IORING_OP_SYNC_FILE_RANGE,
        spec_syncfilerange(op).flags == (if op.fd is Fixed { FIXED_FILE } else { 0u8 }),
        spec_syncfilerange(op).ioprio == 0u16,
        spec_syncfilerange(op).fd == (match op.fd { Target::Fd(v) => v, Target::Fixed(i) => i as i32 }),
        spec_syncfilerange(op).off == (op.offset as u64),
        spec_syncfilerange(op).addr == 0u64,
        spec_syncfilerange(op).len == op.len,
        spec_syncfilerange(op).op_flags == op.flags,
        spec_syncfilerange(op).user_data == 0u64,
        spec_syncfilerange(op).buf_index == 0u16,
        spec_syncfilerange(op).personality == 0u16,
        spec_syncfilerange(op).splice_fd_in == 0i32,
        spec_syncfilerange(op).addr3 == 0u64,
        spec_syncfilerange(op).pad2 == 0u64,
{
    lemma_zero_or_u8(FIXED_FILE);
}

/// What the entry converted from a [`SendMsg`] holds: each field of the submission
/// entry, from the operation's arguments or zero.
pub proof fn lemma_send_msg_entry(op: SendMsg)
    ensures
        spec_sendmsg(op).opcode == sys::IORING_OP_SENDMSG,
        spec_sendmsg(op).flags == (if op.fd is Fixed { FIXED_FILE } else { 0u8 }),
        spec_sendmsg(op).ioprio == 0u16,
        spec_sendmsg(op).fd == (match op.fd { Target::Fd(v) => v, Target::Fixed(i) => i as i32 }),
        spec_sendmsg(op).off == 0u64,
        spec_sendmsg(op).addr == op.msg,
        spec_sendmsg(op).len == 1u32,
        spec_sendmsg(op).op_flags == op.flags,
        spec_sendmsg(op).user_data == 0u64,
        spec_sendmsg(op).buf_index == 0u16,
        spec_sendmsg(op).personality == 0u16,
        spec_sendmsg(op).splice_fd_in == 0i32,
        spec_sendmsg(op).addr3 == 0u64,
        spec_sendmsg(op).pad2 == 0u64,
{
    lemma_zero_or_u8(FIXED_FILE);
}

/// What the entry converted from a [`RecvMsg`] holds: each field of the submission
/// entry, from the operation's arguments or zero.
pub proof fn lemma_recv_msg_entry(op: RecvMsg)
    ensures
        spec_recvmsg(op).opcode == sys::IORING_OP_RECVMSG,
        spec_recvmsg(op).flags == (if op.fd is Fixed { FIXED_FILE } else { 0u8 }),
        spec_recvmsg(op).ioprio == 0u16,
        spec_recvmsg(op).fd == (match op.fd { Target::Fd(v) => v, Target::Fixed(i) => i as i32 }),
        spec_recvmsg(op).off == 0u64,
        spec_recvmsg(op).addr == op.msg,
        spec_recvmsg(op).len == 1u32,
        spec_recvmsg(op).op_flags == op.flags,
        spec_recvmsg(op).user_data == 0u64,
        spec_recvmsg(op).buf_index == 0u16,
        spec_recvmsg(op).personality == 0u16,
        spec_recvmsg(op).splice_fd_in == 0i32,
        spec_recvmsg(op).addr3 == 0u64,
        spec_recvmsg(op).pad2 == 0u64,
{
    lemma_zero_or_u8(FIXED_FILE);
}
} // verus!
