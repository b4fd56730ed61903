//! Common Linux types not provided by libc.

use vstd::prelude::*;
use vstd::slice::slice_subrange;
use std::marker::PhantomData;
use std::time::Duration;
use crate::sys;
use crate::util::unwrap_u32;

verus! {

/// libc's `sigset_t`, carried by reference from the caller to `io_uring_enter(2)`.
#[verifier::external_type_specification]
#[verifier::external_body]
pub struct ExSigset(libc::sigset_t);

/// The target of an operation: a plain file descriptor or an index into the
/// registered file table.
#[derive(Debug, Clone, Copy, PartialEq, Eq, Structural)]
pub enum Target {
    Fd(i32),
    Fixed(u32),
}

/// Something that names a plain file descriptor.
pub trait UseFd: Sized {
    spec fn spec_fd(&self) -> i32;

    fn into(self) -> (r: i32)
        ensures
            r == self.spec_fd(),
    ;
}

/// Something that names a file: a file descriptor or a registered file.
pub trait UseFixed: Sized {
    spec fn spec_target(&self) -> Target;

    fn into(self) -> (r: Target)
        ensures
            r == self.spec_target(),
    ;
}

/// A file descriptor that has not been registered with io_uring.
#[derive(Debug, Clone, Copy, PartialEq, Eq, Structural)]
pub struct Fd(pub i32);

/// A file descriptor that has been registered with io_uring; the value is its
/// index in the registered file table.
#[derive(Debug, Clone, Copy, PartialEq, Eq, Structural)]
pub struct Fixed(pub u32);

impl UseFd for Fd {
    open spec fn spec_fd(&self) -> i32 {
        self.0
    }

    fn into(self) -> (r: i32) {
        self.0
    }
}

impl UseFixed for Fd {
    open spec fn spec_target(&self) -> Target {
        Target::Fd(self.0)
    }

    fn into(self) -> (r: Target) {
        Target::Fd(self.0)
    }
}

impl UseFixed for Fixed {
    open spec fn spec_target(&self) -> Target {
        Target::Fixed(self.0)
    }

    fn into(self) -> (r: Target) {
        Target::Fixed(self.0)
    }
}

/// Per-I/O flags of reads and writes, as for `preadv2(2)`.
pub type RwFlags = i32;

/// Options for timeouts: a bitwise OR of the `IORING_TIMEOUT_*` constants of
/// [`sys`](crate::sys).
pub type TimeoutFlags = u32;

/// Options for fsync: `0` or [`IORING_FSYNC_DATASYNC`](crate::sys::IORING_FSYNC_DATASYNC).
pub type FsyncFlags = u32;

/// Match criteria of a cancellation: a bitwise OR of the `IORING_ASYNC_CANCEL_*`
/// constants of [`sys`](crate::sys).
pub type AsyncCancelFlags = u32;

/// Opaque type; use libc's `statx` instead.
#[allow(non_camel_case_types)]
pub struct statx {
    _priv: (),
}

/// Opaque type; use libc's `epoll_event` instead.
#[allow(non_camel_case_types)]
pub struct epoll_event {
    _priv: (),
}

/// Arguments of the `openat2(2)` system call.
#[derive(Default, Debug, Clone, Copy, PartialEq, Eq, Structural)]
pub struct OpenHow {
    pub flags: u64,
    pub mode: u64,
    pub resolve: u64,
}

impl OpenHow {
    pub fn new() -> (r: Self)
        ensures
            r == (OpenHow { flags: 0, mode: 0, resolve: 0 }),
    {
        OpenHow { flags: 0, mode: 0, resolve: 0 }
    }

    pub fn flags(self, flags: u64) -> (r: Self)
        ensures
            r == (OpenHow { flags, ..self }),
    {
        OpenHow { flags, ..self }
    }

    pub fn mode(self, mode: u64) -> (r: Self)
        ensures
            r == (OpenHow { mode, ..self }),
    {
        OpenHow { mode, ..self }
    }

    pub fn resolve(self, resolve: u64) -> (r: Self)
        ensures
            r == (OpenHow { resolve, ..self }),
    {
        OpenHow { resolve, ..self }
    }
}

/// A point in time or a time interval, as the kernel's `__kernel_timespec`.
#[derive(Default, Debug, Clone, Copy, PartialEq, Eq, Structural)]
pub struct Timespec {
    tv_sec: i64,
    tv_nsec: i64,
}

impl Timespec {
    pub closed spec fn spec_sec(&self) -> i64 {
        self.tv_sec
    }

    pub closed spec fn spec_nsec(&self) -> i64 {
        self.tv_nsec
    }

    /// Zero.
    pub fn new() -> (r: Self)
        ensures
            r.spec_sec() == 0,
            r.spec_nsec() == 0,
    {
        Timespec { tv_sec: 0, tv_nsec: 0 }
    }

    /// Set the seconds.
    pub fn sec(self, sec: u64) -> (r: Self)
        ensures
            r.spec_sec() == sec as i64,
            r.spec_nsec() == self.spec_nsec(),
    {
        Timespec { tv_sec: sec as i64, tv_nsec: self.tv_nsec }
    }

    /// Set the nanoseconds.
    pub fn nsec(self, nsec: u32) -> (r: Self)
        ensures
            r.spec_sec() == self.spec_sec(),
            r.spec_nsec() == nsec as i64,
    {
        Timespec { tv_sec: self.tv_sec, tv_nsec: nsec as i64 }
    }

    /// The seconds, as the kernel receives them.
    pub fn tv_sec(&self) -> (r: i64)
        ensures
            r == self.spec_sec(),
    {
        self.tv_sec
    }

    /// The nanoseconds, as the kernel receives them.
    pub fn tv_nsec(&self) -> (r: i64)
        ensures
            r == self.spec_nsec(),
    {
        self.tv_nsec
    }

    /// The value that means "wait forever" to a synchronous cancellation.
    pub fn infinite() -> (r: Self)
        ensures
            r.spec_sec() == -1,
            r.spec_nsec() == -1,
    {
        Timespec { tv_sec: -1, tv_nsec: -1 }
    }
}

/// The whole seconds of `d`, as `Duration::as_secs` gives them.
pub uninterp spec fn duration_secs(d: Duration) -> u64;

/// The fractional part of `d` in nanoseconds, as `Duration::subsec_nanos` gives it.
pub uninterp spec fn duration_subsec_nanos_of(d: Duration) -> u32;

/// `Duration::as_secs`: the whole seconds of `d`.
#[verifier::external_body]
fn duration_as_secs(d: &Duration) -> (r: u64)
    ensures
        r == duration_secs(*d),
{
    d.as_secs()
}

/// `Duration::subsec_nanos`: the fractional part of `d` in nanoseconds, which std
/// documents to be less than one billion.
#[verifier::external_body]
fn duration_subsec_nanos(d: &Duration) -> (r: u32)
    ensures
        r == duration_subsec_nanos_of(*d),
        r < 1_000_000_000,
{
    d.subsec_nanos()
}

impl vstd::std_specs::convert::FromSpecImpl<Duration> for Timespec {
    open spec fn obeys_from_spec() -> bool {
        true
    }

    closed spec fn from_spec(v: Duration) -> Timespec {
        Timespec { tv_sec: duration_secs(v) as i64, tv_nsec: duration_subsec_nanos_of(v) as i64 }
    }
}

impl From<Duration> for Timespec {
    /// The whole seconds and the nanoseconds of `value`.
    fn from(value: Duration) -> (r: Self)
        ensures
            r.spec_sec() == duration_secs(value) as i64,
            r.spec_nsec() == duration_subsec_nanos_of(value) as i64,
            0 <= r.spec_nsec() < 1_000_000_000,
    {
        let secs = duration_as_secs(&value);
        let nanos = duration_subsec_nanos(&value);
        Timespec::new().sec(secs).nsec(nanos)
    }
}


/// Extended arguments of `io_uring_enter(2)`: an optional signal mask and an
/// optional timeout. The lifetimes keep the referenced values alive for as long
/// as the arguments are in use.
pub struct SubmitArgs<'prev: 'now, 'now> {
    sigmask: Option<&'now libc::sigset_t>,
    timespec: Option<&'now Timespec>,
    prev: PhantomData<&'prev ()>,
}

impl<'prev, 'now> SubmitArgs<'prev, 'now> {
    pub closed spec fn spec_has_sigmask(&self) -> bool {
        self.sigmask is Some
    }

    pub closed spec fn spec_timespec(&self) -> Option<Timespec> {
        match self.timespec {
            Some(t) => Some(*t),
            None => None,
        }
    }

    /// No signal mask and no timeout.
    pub fn new() -> (r: SubmitArgs<'static, 'static>)
        ensures
            !r.spec_has_sigmask(),
            r.spec_timespec() is None,
    {
        SubmitArgs { sigmask: None, timespec: None, prev: PhantomData }
    }

    /// Set the signal mask to install while waiting.
    pub fn sigmask<'new>(self, sigmask: &'new libc::sigset_t) -> (r: SubmitArgs<'now, 'new>)
        ensures
            r.spec_has_sigmask(),
            r.spec_timespec() == self.spec_timespec(),
    {
        SubmitArgs { sigmask: Some(sigmask), timespec: self.timespec, prev: PhantomData }
    }

    /// Set the timeout of the wait.
    pub fn timespec<'new>(self, timespec: &'new Timespec) -> (r: SubmitArgs<'now, 'new>)
        ensures
            r.spec_has_sigmask() == self.spec_has_sigmask(),
            r.spec_timespec() == Some(*timespec),
    {
        SubmitArgs { sigmask: self.sigmask, timespec: Some(timespec), prev: PhantomData }
    }

    /// The signal mask, if one was set.
    pub fn sigmask_ref(&self) -> (r: Option<&'now libc::sigset_t>)
        ensures
            r is Some == self.spec_has_sigmask(),
    {
        self.sigmask
    }

    /// The timeout, if one was set.
    pub fn timespec_ref(&self) -> (r: Option<&'now Timespec>)
        ensures
            match r {
                Some(t) => self.spec_timespec() == Some(*t),
                None => self.spec_timespec() is None,
            },
    {
        self.timespec
    }
}

/// An entry of a provided-buffer ring: the address, length and id of one
/// buffer. The `resv` field of the first entry doubles as the ring's tail.
#[derive(Default, Debug, Clone, Copy, PartialEq, Eq, Structural)]
pub struct BufRingEntry {
    pub addr: u64,
    pub len: u32,
    pub bid: u16,
    pub resv: u16,
}

#[allow(clippy::len_without_is_empty)]
impl BufRingEntry {
    pub open spec fn spec_zeroed() -> BufRingEntry {
        BufRingEntry { addr: 0, len: 0, bid: 0, resv: 0 }
    }

    /// `self` describing the buffer `(bid, addr, len)`, with `resv` kept.
    pub open spec fn spec_with_desc(self, addr: u64, len: u32, bid: u16) -> BufRingEntry {
        BufRingEntry { addr, len, bid, resv: self.resv }
    }

    /// `self` with `resv` replaced.
    pub open spec fn spec_with_resv(self, resv: u16) -> BufRingEntry {
        BufRingEntry { resv, ..self }
    }

    /// An all-zero entry.
    pub fn zeroed() -> (r: Self)
        ensures
            r == BufRingEntry::spec_zeroed(),
    {
        BufRingEntry { addr: 0, len: 0, bid: 0, resv: 0 }
    }

    /// Sets the entry addr.
    pub fn set_addr(&mut self, addr: u64)
        ensures
            *final(self) == old(self).spec_set(BufRingEntrySet::Addr(addr)),
    {
        self.addr = addr;
    }

    /// Returns the entry addr.
    pub fn addr(&self) -> (r: u64)
        ensures
            r == self.addr,
    {
        self.addr
    }

    /// Sets the entry len.
    pub fn set_len(&mut self, len: u32)
        ensures
            *final(self) == old(self).spec_set(BufRingEntrySet::Len(len)),
    {
        self.len = len;
    }

    /// Returns the entry len.
    pub fn len(&self) -> (r: u32)
        ensures
            r == self.len,
    {
        self.len
    }

    /// Sets the entry bid.
    pub fn set_bid(&mut self, bid: u16)
        ensures
            *final(self) == old(self).spec_set(BufRingEntrySet::Bid(bid)),
    {
        self.bid = bid;
    }

    /// Returns the entry bid.
    pub fn bid(&self) -> (r: u16)
        ensures
            r == self.bid,
    {
        self.bid
    }

    /// Sets the reserved field, which in the first entry of a ring holds its tail.
    pub fn set_resv(&mut self, resv: u16)
        ensures
            *final(self) == old(self).spec_set(BufRingEntrySet::Resv(resv)),
    {
        self.resv = resv;
    }

    /// The reserved field, which in the first entry of a ring holds the ring's tail.
    pub fn resv(&self) -> (r: u16)
        ensures
            r == self.resv,
    {
        self.resv
    }
}

/// One call of a [`BufRingEntry`] setter, with the value it stores.
pub enum BufRingEntrySet {
    Addr(u64),
    Len(u32),
    Bid(u16),
    Resv(u16),
}

impl BufRingEntry {
    /// The entry after the setter call `op`: the one field it sets replaced, the
    /// others kept.
    pub open spec fn spec_set(self, op: BufRingEntrySet) -> BufRingEntry {
        match op {
            BufRingEntrySet::Addr(addr) => BufRingEntry { addr, ..self },
            BufRingEntrySet::Len(len) => BufRingEntry { len, ..self },
            BufRingEntrySet::Bid(bid) => BufRingEntry { bid, ..self },
            BufRingEntrySet::Resv(resv) => BufRingEntry { resv, ..self },
        }
    }

    /// The entry after each setter call of `ops` in turn.
    pub open spec fn spec_set_all(self, ops: Seq<BufRingEntrySet>) -> BufRingEntry
        decreases ops.len(),
    {
        if ops.len() == 0 {
            self
        } else {
            self.spec_set_all(ops.drop_last()).spec_set(ops.last())
        }
    }
}

/// The address that `set_addr` stores is what `addr` returns, however many calls
/// of the other setters follow.
pub proof fn lemma_addr_survives_other_setters(e: BufRingEntry, addr: u64, ops: Seq<BufRingEntrySet>)
    requires
        forall|i: int| 0 <= i < ops.len() ==> !(#[trigger] ops[i] is Addr),
    ensures
        e.spec_set(BufRingEntrySet::Addr(addr)).spec_set_all(ops).addr == addr,
    decreases ops.len(),
{
    if ops.len() > 0 {
        lemma_addr_survives_other_setters(e, addr, ops.drop_last());
        assert(!(ops[ops.len() - 1] is Addr));
    }
}

/// The length that `set_len` stores is what `len` returns, however many calls of
/// the other setters follow.
pub proof fn lemma_len_survives_other_setters(e: BufRingEntry, len: u32, ops: Seq<BufRingEntrySet>)
    requires
        forall|i: int| 0 <= i < ops.len() ==> !(#[trigger] ops[i] is Len),
    ensures
        e.spec_set(BufRingEntrySet::Len(len)).spec_set_all(ops).len == len,
    decreases ops.len(),
{
    if ops.len() > 0 {
        lemma_len_survives_other_setters(e, len, ops.drop_last());
        assert(!(ops[ops.len() - 1] is Len));
    }
}

/// The buffer id that `set_bid` stores is what `bid` returns, however many calls
/// of the other setters follow.
pub proof fn lemma_bid_survives_other_setters(e: BufRingEntry, bid: u16, ops: Seq<BufRingEntrySet>)
    requires
        forall|i: int| 0 <= i < ops.len() ==> !(#[trigger] ops[i] is Bid),
    ensures
        e.spec_set(BufRingEntrySet::Bid(bid)).spec_set_all(ops).bid == bid,
    decreases ops.len(),
{
    if ops.len() > 0 {
        lemma_bid_survives_other_setters(e, bid, ops.drop_last());
        assert(!(ops[ops.len() - 1] is Bid));
    }
}

/// The largest target slot a [`DestinationSlot`] can name.
pub open spec fn max_slot_target() -> u32 {
    (sys::IORING_FILE_INDEX_ALLOC - 2) as u32
}

/// A destination slot for sending fixed resources to another ring.
#[derive(Debug, Clone, Copy, PartialEq, Eq, Structural)]
pub struct DestinationSlot {
    /// Fixed slot as indexed by the kernel (target + 1), never zero.
    dest: u32,
}

impl DestinationSlot {
    #[verifier::type_invariant]
    spec fn inv(&self) -> bool {
        self.dest != 0
    }

    /// The slot number that the kernel receives.
    pub closed spec fn spec_kernel_index(&self) -> u32 {
        self.dest
    }

    /// Use an automatically allocated target slot.
    pub fn auto_target() -> (r: Self)
        ensures
            r.spec_kernel_index() == sys::IORING_FILE_INDEX_ALLOC,
    {
        DestinationSlot { dest: sys::IORING_FILE_INDEX_ALLOC }
    }

    /// Try to use a given target slot. Valid slots are in the range from `0` to
    /// `u32::MAX - 2` inclusive; others are handed back as the error.
    pub fn try_from_slot_target(target: u32) -> (r: Result<Self, u32>)
        ensures
            r is Ok <==> target <= max_slot_target(),
            r matches Ok(s) ==> s.spec_kernel_index() == target + 1,
            r matches Err(t) ==> t == target,
    {
        let max_index: u32 = unwrap_u32(sys::IORING_FILE_INDEX_ALLOC.checked_sub(2));
        if target > max_index {
            return Err(target);
        }
        let kernel_index = target + 1;
        Ok(DestinationSlot { dest: kernel_index })
    }

    /// The slot number that the kernel receives: the target plus one, or the
    /// automatic-allocation marker.
    pub fn kernel_index_arg(&self) -> (r: u32)
        ensures
            r == self.spec_kernel_index(),
            r != 0,
    {
        proof {
            use_type_invariant(self);
        }
        self.dest
    }
}


/// libc's `MSG_CTRUNC` (control data was truncated), as a `u32`.
#[verifier::external_body]
fn msg_ctrunc() -> (r: u32)
    ensures
        r == 8,
{
    libc::MSG_CTRUNC as u32
}

/// libc's `MSG_TRUNC` (payload was truncated), as a `u32`.
#[verifier::external_body]
fn msg_trunc() -> (r: u32)
    ensures
        r == 0x20,
{
    libc::MSG_TRUNC as u32
}

/// The `u32` whose bytes, least significant first, are `b0`, `b1`, `b2`, `b3`.
pub open spec fn u32_from_le(b0: u8, b1: u8, b2: u8, b3: u8) -> u32 {
    (b0 + b1 * 0x100 + b2 * 0x1_0000 + b3 * 0x100_0000) as u32
}

/// The four bytes of `buf` from `at` on, read least significant byte first.
pub open spec fn le_u32_at(buf: Seq<u8>, at: int) -> u32 {
    u32_from_le(buf[at], buf[at + 1], buf[at + 2], buf[at + 3])
}

/// The four bytes of `buf` from `at` on, read most significant byte first.
pub open spec fn be_u32_at(buf: Seq<u8>, at: int) -> u32 {
    u32_from_le(buf[at + 3], buf[at + 2], buf[at + 1], buf[at])
}

/// `header` is what the first sixteen bytes of `buf` hold: the name, control
/// and payload lengths and the flags, all four read in the machine's one byte
/// order, which is either little-endian or big-endian.
pub open spec fn header_decoded(header: RecvMsgOutHeader, buf: Seq<u8>) -> bool {
    ||| {
        &&& header.namelen == le_u32_at(buf, 0)
        &&& header.controllen == le_u32_at(buf, 4)
        &&& header.payloadlen == le_u32_at(buf, 8)
        &&& header.flags == le_u32_at(buf, 12)
    }
    ||| {
        &&& header.namelen == be_u32_at(buf, 0)
        &&& header.controllen == be_u32_at(buf, 4)
        &&& header.payloadlen == be_u32_at(buf, 8)
        &&& header.flags == be_u32_at(buf, 12)
    }
}

/// `u32::from_ne_bytes` on each four bytes of `bytes`: the header fields that the
/// kernel wrote in the machine's byte order. Which byte order that is depends on
/// the machine, so the result is stated to be one of the two readings, the same
/// for all four fields.
#[verifier::external_body]
fn header_from_ne_bytes(bytes: [u8; 16]) -> (r: RecvMsgOutHeader)
    ensures
        header_decoded(r, bytes@),
{
    RecvMsgOutHeader {
        namelen: u32::from_ne_bytes([bytes[0], bytes[1], bytes[2], bytes[3]]),
        controllen: u32::from_ne_bytes([bytes[4], bytes[5], bytes[6], bytes[7]]),
        payloadlen: u32::from_ne_bytes([bytes[8], bytes[9], bytes[10], bytes[11]]),
        flags: u32::from_ne_bytes([bytes[12], bytes[13], bytes[14], bytes[15]]),
    }
}

/// The header (`io_uring_recvmsg_out`) that the kernel writes at the start of
/// each buffer filled by a multishot `RecvMsg`.
#[derive(Debug, Clone, Copy, PartialEq, Eq, Structural)]
pub struct RecvMsgOutHeader {
    pub namelen: u32,
    pub controllen: u32,
    pub payloadlen: u32,
    pub flags: u32,
}

/// The fields of a `msghdr` that fix the layout of a multishot `RecvMsg` buffer:
/// the sizes reserved for the name and for the control data.
#[derive(Debug, Clone, Copy, PartialEq, Eq, Structural)]
pub struct MsgHdr {
    pub msg_namelen: u32,
    pub msg_controllen: usize,
}

pub open spec fn min_nat(a: int, b: int) -> int {
    if a <= b { a } else { b }
}

/// A buffer of `len` bytes has room for the header and for the name and control
/// fields that `msghdr` reserves.
pub open spec fn recvmsg_buffer_fits(len: int, msghdr: MsgHdr) -> bool {
    sys::RECVMSG_OUT_SIZE + msghdr.msg_namelen + msghdr.msg_controllen <= len
}

/// Where the name field starts.
pub open spec fn name_start() -> int {
    sys::RECVMSG_OUT_SIZE as int
}

/// Where the name field ends and the control field starts.
pub open spec fn control_start(msghdr: MsgHdr) -> int {
    sys::RECVMSG_OUT_SIZE + msghdr.msg_namelen
}

/// Where the control field ends and the payload starts.
pub open spec fn payload_start(msghdr: MsgHdr) -> int {
    sys::RECVMSG_OUT_SIZE + msghdr.msg_namelen + msghdr.msg_controllen
}

/// The name data: as much of the incoming name as its field holds.
pub open spec fn spec_name_data(buf: Seq<u8>, msghdr: MsgHdr, header: RecvMsgOutHeader) -> Seq<u8> {
    buf.subrange(name_start(), name_start() + min_nat(header.namelen as int, msghdr.msg_namelen as int))
}

/// The control data: as much of the incoming control data as its field holds.
pub open spec fn spec_control_data(buf: Seq<u8>, msghdr: MsgHdr, header: RecvMsgOutHeader) -> Seq<u8> {
    buf.subrange(
        control_start(msghdr),
        control_start(msghdr) + min_nat(header.controllen as int, msghdr.msg_controllen as int),
    )
}

/// The payload: as much of the incoming payload as the rest of the buffer holds.
pub open spec fn spec_payload_data(buf: Seq<u8>, msghdr: MsgHdr, header: RecvMsgOutHeader) -> Seq<u8> {
    buf.subrange(
        payload_start(msghdr),
        payload_start(msghdr) + min_nat(header.payloadlen as int, buf.len() - payload_start(msghdr)),
    )
}

/// Helper structure for parsing the result of a multishot `RecvMsg`.
pub struct RecvMsgOut<'buf> {
    header: RecvMsgOutHeader,
    /// The fixed length of the name field, in bytes.
    msghdr_name_len: usize,
    name_data: &'buf [u8],
    control_data: &'buf [u8],
    payload_data: &'buf [u8],
}

impl<'buf> RecvMsgOut<'buf> {
    pub closed spec fn spec_header(&self) -> RecvMsgOutHeader {
        self.header
    }

    pub closed spec fn spec_msghdr_name_len(&self) -> usize {
        self.msghdr_name_len
    }

    pub closed spec fn spec_name_data(&self) -> Seq<u8> {
        self.name_data@
    }

    pub closed spec fn spec_control_data(&self) -> Seq<u8> {
        self.control_data@
    }

    pub closed spec fn spec_payload_data(&self) -> Seq<u8> {
        self.payload_data@
    }

    /// `self` is what parsing `buf`, laid out by `msghdr`, gives when the header
    /// reads `self.spec_header()`.
    pub open spec fn parsed_from(&self, buf: Seq<u8>, msghdr: MsgHdr) -> bool {
        &&& self.spec_msghdr_name_len() == msghdr.msg_namelen
        &&& self.spec_name_data() == spec_name_data(buf, msghdr, self.spec_header())
        &&& self.spec_control_data() == spec_control_data(buf, msghdr, self.spec_header())
        &&& self.spec_payload_data() == spec_payload_data(buf, msghdr, self.spec_header())
    }

    /// Whether a buffer of `len` bytes holds the header and the fields that `msghdr`
    /// reserves; a total size beyond `usize::MAX` never fits.
    fn fits(len: usize, msghdr: &MsgHdr) -> (r: bool)
        ensures
            r == recvmsg_buffer_fits(len as int, *msghdr),
    {
        match sys::RECVMSG_OUT_SIZE.checked_add(msghdr.msg_namelen as usize) {
            None => false,
            Some(acc) => match acc.checked_add(msghdr.msg_controllen) {
                None => false,
                Some(header_len) => !(len < header_len),
            },
        }
    }

    /// Parse the data buffered upon completion of a `RecvMsg` multishot operation.
    ///
    /// `buffer` is the whole buffer previously provided to the ring, while `msghdr`
    /// holds the name and control sizes given to the corresponding SQE. Fails when the
    /// buffer is too small to hold the header and those two fields.
    pub fn parse(buffer: &'buf [u8], msghdr: &MsgHdr) -> (r: Result<Self, ()>)
        ensures
            r is Ok <==> recvmsg_buffer_fits(buffer@.len() as int, *msghdr),
            r matches Ok(out) ==> out.parsed_from(buffer@, *msghdr) && header_decoded(out.spec_header(), buffer@),
    {
        if !Self::fits(buffer.len(), msghdr) {
            return Err(());
        }
        let header = header_from_ne_bytes(
            [
                buffer[0],
                buffer[1],
                buffer[2],
                buffer[3],
                buffer[4],
                buffer[5],
                buffer[6],
                buffer[7],
                buffer[8],
                buffer[9],
                buffer[10],
                buffer[11],
                buffer[12],
                buffer[13],
                buffer[14],
                buffer[15],
            ],
        );
        Self::parse_with_header(buffer, msghdr, header)
    }

    /// Lay out `buffer` as `msghdr` describes, given the header that the kernel wrote
    /// at its start: the name, control and payload data that each field holds.
    pub fn parse_with_header(buffer: &'buf [u8], msghdr: &MsgHdr, header: RecvMsgOutHeader) -> (r: Result<Self, ()>)
        ensures
            r is Ok <==> recvmsg_buffer_fits(buffer@.len() as int, *msghdr),
            r matches Ok(out) ==> out.parsed_from(buffer@, *msghdr) && out.spec_header() == header,
    {
        if !Self::fits(buffer.len(), msghdr) {
            return Err(());
        }
        let name_len = msghdr.msg_namelen as usize;
        let control_len = msghdr.msg_controllen;
        let name_start = sys::RECVMSG_OUT_SIZE;
        let incoming_name = header.namelen as usize;
        let name_data_end = name_start + if incoming_name <= name_len { incoming_name } else { name_len };
        let control_start = name_start + name_len;
        let incoming_control = header.controllen as usize;
        let control_data_end = control_start + if incoming_control <= control_len {
            incoming_control
        } else {
            control_len
        };
        let payload_start = control_start + control_len;
        let incoming_payload = header.payloadlen as usize;
        let room = buffer.len() - payload_start;
        let payload_data_end = payload_start + if incoming_payload <= room { incoming_payload } else { room };
        let name_data = slice_subrange(buffer, name_start, name_data_end);
        let control_data = slice_subrange(buffer, control_start, control_data_end);
        let payload_data = slice_subrange(buffer, payload_start, payload_data_end);
        Ok(RecvMsgOut { header, msghdr_name_len: name_len, name_data, control_data, payload_data })
    }

    /// The length of the incoming name, which may exceed what `name_data` holds.
    pub fn incoming_name_len(&self) -> (r: u32)
        ensures
            r == self.spec_header().namelen,
    {
        self.header.namelen
    }

    /// Whether the incoming name was larger than its field, so that `name_data` is
    /// truncated.
    pub fn is_name_data_truncated(&self) -> (r: bool)
        ensures
            r == (self.spec_header().namelen > self.spec_msghdr_name_len()),
    {
        self.header.namelen as usize > self.msghdr_name_len
    }

    /// The name data (the peer address).
    pub fn name_data(&self) -> (r: &[u8])
        ensures
            r@ == self.spec_name_data(),
    {
        self.name_data
    }

    /// The length of the incoming control data, which may exceed what
    /// `control_data` holds.
    pub fn incoming_control_len(&self) -> (r: u32)
        ensures
            r == self.spec_header().controllen,
    {
        self.header.controllen
    }

    /// Whether the incoming control data was larger than its field.
    pub fn is_control_data_truncated(&self) -> (r: bool)
        ensures
            r == (self.spec_header().flags & 8 != 0),
    {
        self.header.flags & msg_ctrunc() != 0
    }

    /// Message control data, with the same semantics as `msghdr.msg_control`.
    pub fn control_data(&self) -> (r: &[u8])
        ensures
            r@ == self.spec_control_data(),
    {
        self.control_data
    }

    /// Whether the incoming payload was larger than the buffer could hold.
    pub fn is_payload_truncated(&self) -> (r: bool)
        ensures
            r == (self.spec_header().flags & 0x20 != 0),
    {
        self.header.flags & msg_trunc() != 0
    }

    /// The message payload, as buffered by the kernel.
    pub fn payload_data(&self) -> (r: &[u8])
        ensures
            r@ == self.spec_payload_data(),
    {
        self.payload_data
    }

    /// The length of the incoming payload, which may exceed what `payload_data`
    /// holds.
    pub fn incoming_payload_len(&self) -> (r: u32)
        ensures
            r == self.spec_header().payloadlen,
    {
        self.header.payloadlen
    }

    /// Message flags, with the same semantics as `msghdr.msg_flags`.
    pub fn flags(&self) -> (r: u32)
        ensures
            r == self.spec_header().flags,
    {
        self.header.flags
    }
}

/// A valid slot target becomes a kernel index that is neither zero nor the
/// automatic-allocation marker, so a chosen slot can never be mistaken for an
/// automatic one.
pub proof fn lemma_slot_target_kernel_index(target: u32)
    requires
        target <= max_slot_target(),
    ensures
        0 < target + 1 < sys::IORING_FILE_INDEX_ALLOC,
{
}

/// A buffer has room for a parsed `RecvMsg` result exactly when it holds the
/// 16-byte header, the name field and the control field.
pub proof fn lemma_recvmsg_fits(len: int, msghdr: MsgHdr)
    ensures
        recvmsg_buffer_fits(len, msghdr) <==> 16 + msghdr.msg_namelen + msghdr.msg_controllen <= len,
{
}

/// The slot targets that [`DestinationSlot::try_from_slot_target`] accepts are
/// exactly `0..=u32::MAX - 2`.
pub proof fn lemma_slot_target_range(target: u32)
    ensures
        target <= max_slot_target() <==> target <= 0xffff_fffd,
{
}

/// What each part of a parsed buffer is, in terms of the buffer, the header that
/// the kernel wrote and the field sizes of `msghdr`: after the 16-byte header,
/// the name is the first `min(namelen, msg_namelen)` bytes of its field, the
/// control data the first `min(controllen, msg_controllen)` bytes of its field,
/// and the payload the first `min(payloadlen, room)` bytes after both fields,
/// `room` being what the buffer has left. A payload that fits is handed out
/// whole, and nothing beyond it.
pub proof fn lemma_recvmsg_parts(out: RecvMsgOut, buf: Seq<u8>, msghdr: MsgHdr)
    requires
        16 + msghdr.msg_namelen + msghdr.msg_controllen <= buf.len(),
        out.parsed_from(buf, msghdr),
    ensures
        ({
            let h = out.spec_header();
            let control_at = 16 + msghdr.msg_namelen;
            let payload_at = control_at + msghdr.msg_controllen;
            let room = buf.len() - payload_at;
            let name_len = if h.namelen <= msghdr.msg_namelen { h.namelen as int } else { msghdr.msg_namelen as int };
            let control_len = if h.controllen <= msghdr.msg_controllen {
                h.controllen as int
            } else {
                msghdr.msg_controllen as int
            };
            let payload_len = if h.payloadlen <= room { h.payloadlen as int } else { room };
            &&& out.spec_name_data() == buf.subrange(16, 16 + name_len)
            &&& out.spec_control_data() == buf.subrange(control_at, control_at + control_len)
            &&& out.spec_payload_data() == buf.subrange(payload_at, payload_at + payload_len)
            &&& h.payloadlen <= room ==> out.spec_payload_data().len() == h.payloadlen
            &&& h.namelen <= msghdr.msg_namelen ==> out.spec_name_data().len() == h.namelen
            &&& h.controllen <= msghdr.msg_controllen ==> out.spec_control_data().len() == h.controllen
        }),
{
}

/// The parts of a parsed buffer lie in order within the buffer, each within its
/// field; and a name or control field holds less than the incoming data exactly
/// when the incoming data was larger than the field.
pub proof fn lemma_recvmsg_layout(out: RecvMsgOut, buf: Seq<u8>, msghdr: MsgHdr)
    requires
        recvmsg_buffer_fits(buf.len() as int, msghdr),
        out.parsed_from(buf, msghdr),
    ensures
        out.spec_name_data().len() <= msghdr.msg_namelen,
        out.spec_control_data().len() <= msghdr.msg_controllen,
        payload_start(msghdr) + out.spec_payload_data().len() <= buf.len(),
        out.spec_name_data().len() < out.spec_header().namelen <==> out.spec_header().namelen
            > msghdr.msg_namelen,
        out.spec_control_data().len() < out.spec_header().controllen <==> out.spec_header().controllen
            > msghdr.msg_controllen,
        out.spec_payload_data().len() < out.spec_header().payloadlen <==> out.spec_header().payloadlen
            > buf.len() - payload_start(msghdr),
        out.spec_name_data() == buf.subrange(name_start(), name_start() + out.spec_name_data().len()),
        out.spec_control_data() == buf.subrange(
            control_start(msghdr),
            control_start(msghdr) + out.spec_control_data().len(),
        ),
        out.spec_payload_data() == buf.subrange(
            payload_start(msghdr),
            payload_start(msghdr) + out.spec_payload_data().len(),
        ),
{
}

/// Match criteria for request cancellation: by user data, by file descriptor, or
/// any request; the first match or all of them.
#[derive(Debug, Clone, Copy, PartialEq, Eq, Structural)]
pub struct CancelBuilder {
    pub(crate) flags: AsyncCancelFlags,
    pub(crate) user_data: Option<u64>,
    pub(crate) fd: Option<Target>,
}

impl CancelBuilder {
    pub closed spec fn spec_flags(&self) -> u32 {
        self.flags
    }

    pub closed spec fn spec_user_data(&self) -> Option<u64> {
        self.user_data
    }

    pub closed spec fn spec_fd(&self) -> Option<Target> {
        self.fd
    }

    /// Match any in-flight request.
    pub fn any() -> (r: Self)
        ensures
            r.spec_flags() == sys::IORING_ASYNC_CANCEL_ANY,
            r.spec_user_data() is None,
            r.spec_fd() is None,
    {
        CancelBuilder { flags: sys::IORING_ASYNC_CANCEL_ANY, user_data: None, fd: None }
    }

    /// Match the first in-flight request with the given `user_data`.
    pub fn user_data(user_data: u64) -> (r: Self)
        ensures
            r.spec_flags() == 0,
            r.spec_user_data() == Some(user_data),
            r.spec_fd() is None,
    {
        CancelBuilder { flags: 0, user_data: Some(user_data), fd: None }
    }

    /// Match the first in-flight request on the given file.
    pub fn fd(fd: impl UseFixed) -> (r: Self)
        ensures
            r.spec_fd() == Some(fd.spec_target()),
            r.spec_user_data() is None,
            fd.spec_target() is Fd ==> r.spec_flags() == sys::IORING_ASYNC_CANCEL_FD,
            fd.spec_target() is Fixed ==> r.spec_flags() == (sys::IORING_ASYNC_CANCEL_FD
                | sys::IORING_ASYNC_CANCEL_FD_FIXED),
    {
        let mut flags = sys::IORING_ASYNC_CANCEL_FD;
        let target = UseFixed::into(fd);
        if let Target::Fixed(_) = target {
            flags = flags | sys::IORING_ASYNC_CANCEL_FD_FIXED;
        }
        CancelBuilder { flags, user_data: None, fd: Some(target) }
    }

    /// Match every in-flight request that meets the criteria, not only the first.
    pub fn all(self) -> (r: Self)
        ensures
            r.spec_flags() == self.spec_flags() | sys::IORING_ASYNC_CANCEL_ALL,
            r.spec_user_data() == self.spec_user_data(),
            r.spec_fd() == self.spec_fd(),
    {
        CancelBuilder { flags: self.flags | sys::IORING_ASYNC_CANCEL_ALL, ..self }
    }

    /// The file descriptor or fixed index to match, or `-1` when matching by user
    /// data or any request.
    pub fn to_fd(&self) -> (r: i32)
        ensures
            r == match self.spec_fd() {
                Some(Target::Fd(fd)) => fd,
                Some(Target::Fixed(idx)) => idx as i32,
                None => -1i32,
            },
    {
        match self.fd {
            Some(Target::Fd(fd)) => fd,
            Some(Target::Fixed(idx)) => idx as i32,
            None => -1,
        }
    }

    /// The match flags.
    pub fn flags(&self) -> (r: AsyncCancelFlags)
        ensures
            r == self.spec_flags(),
    {
        self.flags
    }

    /// The user data to match, if matching by user data.
    pub fn target_user_data(&self) -> (r: Option<u64>)
        ensures
            r == self.spec_user_data(),
    {
        self.user_data
    }

    /// The file to match, if matching by file.
    pub fn target_fd(&self) -> (r: Option<Target>)
        ensures
            r == self.spec_fd(),
    {
        self.fd
    }
}

/// Arguments of one futex for the `futex_waitv(2)` system call.
#[derive(Default, Debug, Clone, Copy, PartialEq, Eq, Structural)]
pub struct FutexWaitV {
    pub val: u64,
    pub uaddr: u64,
    pub flags: u32,
    pub reserved: u32,
}

impl FutexWaitV {
    pub fn new() -> (r: Self)
        ensures
            r == (FutexWaitV { val: 0, uaddr: 0, flags: 0, reserved: 0 }),
    {
        FutexWaitV { val: 0, uaddr: 0, flags: 0, reserved: 0 }
    }

    pub fn val(self, val: u64) -> (r: Self)
        ensures
            r == (FutexWaitV { val, ..self }),
    {
        FutexWaitV { val, ..self }
    }

    pub fn uaddr(self, uaddr: u64) -> (r: Self)
        ensures
            r == (FutexWaitV { uaddr, ..self }),
    {
        FutexWaitV { uaddr, ..self }
    }

    pub fn flags(self, flags: u32) -> (r: Self)
        ensures
            r == (FutexWaitV { flags, ..self }),
    {
        FutexWaitV { flags, ..self }
    }
}

} // verus!
