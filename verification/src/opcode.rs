//! Operation codes that can be used to construct [`squeue::Entry`](crate::squeue::Entry)s.
//!
//! Arguments that the kernel reads from memory (buffers, `iovec` arrays,
//! paths, socket addresses, ...) are given by address.

#![allow(clippy::new_without_default)]

use vstd::prelude::*;
use crate::squeue::Entry;
use crate::sys::{self, Sqe};
use crate::types::{Target, UseFd, UseFixed};

verus! {

/// Prepare a submission queue entry from an opcode object.
pub trait PrepareSQE {
    /// `after` is what preparing `sqe` for this operation may give.
    spec fn spec_prepared(&self, sqe: Sqe, after: Sqe) -> bool;

    /// Fill in the fields of `sqe` that this operation uses.
    fn prepare(&self, sqe: &mut Sqe)
        ensures
            self.spec_prepared(*old(sqe), *final(sqe)),
    ;
}

/// The value a file target takes in a submission queue entry: the descriptor,
/// or the index into the registered file table.
pub open spec fn target_value(t: Target) -> i32 {
    match t {
        Target::Fd(fd) => fd,
        Target::Fixed(i) => i as i32,
    }
}

fn target_sqe_value(t: Target) -> (r: i32)
    ensures
        r == target_value(t),
{
    match t {
        Target::Fd(fd) => fd,
        Target::Fixed(i) => i as i32,
    }
}

/// `x` with its two 16-bit halves exchanged.
pub open spec fn swap_halves(x: u32) -> u32 {
    (x << 16u32) | (x >> 16u32)
}

/// The word a 32-bit poll mask `flags` is stored as, given `be_one`, the value
/// `u32::to_be(1)` has on the machine: on a big-endian machine (`be_one == 1`)
/// the mask's 16-bit halves are swapped, on a little-endian one it is stored as is.
pub fn poll_mask_word(flags: u32, be_one: u32) -> (r: u32)
    ensures
        r == (if be_one == 1 { swap_halves(flags) } else { flags }),
{
    if be_one == 1 {
        (flags << 16u32) | (flags >> 16u32)
    } else {
        flags
    }
}

/// Size in bytes of an `open_how`.
pub const OPEN_HOW_SIZE: u32 = 24;

/// `x` with the order of its four bytes reversed.
pub open spec fn swap_bytes(x: u32) -> u32 {
    ((x & 0xffu32) << 24u32) | ((x & 0xff00u32) << 8u32) | ((x >> 8u32) & 0xff00u32) | (x >> 24u32)
}

/// `u32::to_be`: `x` in big-endian byte order, which on a big-endian machine is
/// `x` itself and on a little-endian one is `x` with its bytes reversed. Which of
/// the two depends on the machine, so the result is stated to be one of them.
#[verifier::external_body]
pub(crate) fn u32_to_be(x: u32) -> (r: u32)
    ensures
        r == x || r == swap_bytes(x),
{
    x.to_be()
}

/// Do not perform any I/O. This is useful for testing the performance of the ring itself.
#[derive(Debug, Clone, Copy, PartialEq, Eq, Structural)]
pub struct Nop {}

impl Nop {
    /// The opcode of the operation, for [`Probe::is_supported`](crate::Probe::is_supported).
    pub const CODE: u8 = sys::IORING_OP_NOP;

    pub fn new() -> (r: Self)
        ensures
            r == (Nop {  }),
    {
        Nop {  }
    }

    /// The submission queue entry for this operation.
    pub fn build(self) -> (r: Entry)
        ensures
            self.spec_prepared(Sqe::spec_zeroed(), r@),
    {
        let mut sqe = Sqe::zeroed();
        self.prepare(&mut sqe);
        Entry::from_sqe(sqe)
    }
}

impl PrepareSQE for Nop {
    open spec fn spec_prepared(&self, sqe: Sqe, after: Sqe) -> bool {
        let s = Sqe { opcode: sys::IORING_OP_NOP, ..sqe };
        let s = Sqe { fd: -1i32, ..s };
        after == s
    }

    fn prepare(&self, sqe: &mut Sqe) {
        sqe.opcode = sys::IORING_OP_NOP;
        sqe.fd = -1;
    }
}

/// Vectored read, equivalent to `preadv2(2)`. `iovec` is the address of the `iovec` array.
#[derive(Debug, Clone, Copy, PartialEq, Eq, Structural)]
pub struct Readv {
    pub fd: Target,
    pub iovec: u64,
    pub len: u32,
    pub ioprio: u16,
    pub offset: i64,
    pub rw_flags: i32,
}

impl Readv {
    /// The opcode of the operation, for [`Probe::is_supported`](crate::Probe::is_supported).
    pub const CODE: u8 = sys::IORING_OP_READV;

    pub fn new(fd: impl UseFixed, iovec: u64, len: u32) -> (r: Self)
        ensures
            r == (Readv { fd: fd.spec_target(), iovec, len, ioprio: 0u16, offset: 0i64, rw_flags: 0i32 }),
    {
        Readv { fd: UseFixed::into(fd), iovec, len, ioprio: 0u16, offset: 0i64, rw_flags: 0i32 }
    }

    pub fn ioprio(self, ioprio: u16) -> (r: Self)
        ensures
            r == (Readv { ioprio, ..self }),
    {
        Readv { ioprio, ..self }
    }

    pub fn offset(self, offset: i64) -> (r: Self)
        ensures
            r == (Readv { offset, ..self }),
    {
        Readv { offset, ..self }
    }

    pub fn rw_flags(self, rw_flags: i32) -> (r: Self)
        ensures
            r == (Readv { rw_flags, ..self }),
    {
        Readv { rw_flags, ..self }
    }

    /// The submission queue entry for this operation.
    pub fn build(self) -> (r: Entry)
        ensures
            self.spec_prepared(Sqe::spec_zeroed(), r@),
    {
        let mut sqe = Sqe::zeroed();
        self.prepare(&mut sqe);
        Entry::from_sqe(sqe)
    }
}

impl PrepareSQE for Readv {
    open spec fn spec_prepared(&self, sqe: Sqe, after: Sqe) -> bool {
        let s = Sqe { opcode: sys::IORING_OP_READV, ..sqe };
        let s = Sqe { fd: target_value(self.fd), ..s };
        let s = Sqe { addr: self.iovec, ..s };
        let s = Sqe { len: self.len, ..s };
        let s = Sqe { ioprio: self.ioprio, ..s };
        let s = Sqe { off: (self.offset as u64), ..s };
        let s = Sqe { op_flags: (self.rw_flags as u32), ..s };
        let s = if self.fd is Fixed { Sqe { flags: s.flags | sys::IOSQE_FIXED_FILE, ..s } } else { s };
        after == s
    }

    fn prepare(&self, sqe: &mut Sqe) {
        sqe.opcode = sys::IORING_OP_READV;
        sqe.fd = target_sqe_value(self.fd);
        sqe.addr = self.iovec;
        sqe.len = self.len;
        sqe.ioprio = self.ioprio;
        sqe.off = self.offset as u64;
        sqe.op_flags = self.rw_flags as u32;
        if let Target::Fixed(_) = self.fd {
            sqe.flags = sqe.flags | sys::IOSQE_FIXED_FILE;
        }
    }
}

/// Vectored write, equivalent to `pwritev2(2)`. `iovec` is the address of the `iovec` array.
#[derive(Debug, Clone, Copy, PartialEq, Eq, Structural)]
pub struct Writev {
    pub fd: Target,
    pub iovec: u64,
    pub len: u32,
    pub ioprio: u16,
    pub offset: i64,
    pub rw_flags: i32,
}

impl Writev {
    /// The opcode of the operation, for [`Probe::is_supported`](crate::Probe::is_supported).
    pub const CODE: u8 = sys::IORING_OP_WRITEV;

    pub fn new(fd: impl UseFixed, iovec: u64, len: u32) -> (r: Self)
        ensures
            r == (Writev { fd: fd.spec_target(), iovec, len, ioprio: 0u16, offset: 0i64, rw_flags: 0i32 }),
    {
        Writev { fd: UseFixed::into(fd), iovec, len, ioprio: 0u16, offset: 0i64, rw_flags: 0i32 }
    }

    pub fn ioprio(self, ioprio: u16) -> (r: Self)
        ensures
            r == (Writev { ioprio, ..self }),
    {
        Writev { ioprio, ..self }
    }

    pub fn offset(self, offset: i64) -> (r: Self)
        ensures
            r == (Writev { offset, ..self }),
    {
        Writev { offset, ..self }
    }

    pub fn rw_flags(self, rw_flags: i32) -> (r: Self)
        ensures
            r == (Writev { rw_flags, ..self }),
    {
        Writev { rw_flags, ..self }
    }

    /// The submission queue entry for this operation.
    pub fn build(self) -> (r: Entry)
        ensures
            self.spec_prepared(Sqe::spec_zeroed(), r@),
    {
        let mut sqe = Sqe::zeroed();
        self.prepare(&mut sqe);
        Entry::from_sqe(sqe)
    }
}

impl PrepareSQE for Writev {
    open spec fn spec_prepared(&self, sqe: Sqe, after: Sqe) -> bool {
        let s = Sqe { opcode: sys::IORING_OP_WRITEV, ..sqe };
        let s = Sqe { fd: target_value(self.fd), ..s };
        let s = Sqe { addr: self.iovec, ..s };
        let s = Sqe { len: self.len, ..s };
        let s = Sqe { ioprio: self.ioprio, ..s };
        let s = Sqe { off: (self.offset as u64), ..s };
        let s = Sqe { op_flags: (self.rw_flags as u32), ..s };
        let s = if self.fd is Fixed { Sqe { flags: s.flags | sys::IOSQE_FIXED_FILE, ..s } } else { s };
        after == s
    }

    fn prepare(&self, sqe: &mut Sqe) {
        sqe.opcode = sys::IORING_OP_WRITEV;
        sqe.fd = target_sqe_value(self.fd);
        sqe.addr = self.iovec;
        sqe.len = self.len;
        sqe.ioprio = self.ioprio;
        sqe.off = self.offset as u64;
        sqe.op_flags = self.rw_flags as u32;
        if let Target::Fixed(_) = self.fd {
            sqe.flags = sqe.flags | sys::IOSQE_FIXED_FILE;
        }
    }
}

/// File sync, equivalent to `fsync(2)`.
#[derive(Debug, Clone, Copy, PartialEq, Eq, Structural)]
pub struct Fsync {
    pub fd: Target,
    pub flags: u32,
}

impl Fsync {
    /// The opcode of the operation, for [`Probe::is_supported`](crate::Probe::is_supported).
    pub const CODE: u8 = sys::IORING_OP_FSYNC;

    pub fn new(fd: impl UseFixed) -> (r: Self)
        ensures
            r == (Fsync { fd: fd.spec_target(), flags: 0u32 }),
    {
        Fsync { fd: UseFixed::into(fd), flags: 0u32 }
    }

    pub fn flags(self, flags: u32) -> (r: Self)
        ensures
            r == (Fsync { flags, ..self }),
    {
        Fsync { flags, ..self }
    }

    /// The submission queue entry for this operation.
    pub fn build(self) -> (r: Entry)
        ensures
            self.spec_prepared(Sqe::spec_zeroed(), r@),
    {
        let mut sqe = Sqe::zeroed();
        self.prepare(&mut sqe);
        Entry::from_sqe(sqe)
    }
}

impl PrepareSQE for Fsync {
    open spec fn spec_prepared(&self, sqe: Sqe, after: Sqe) -> bool {
        let s = Sqe { opcode: sys::IORING_OP_FSYNC, ..sqe };
        let s = Sqe { fd: target_value(self.fd), ..s };
        let s = Sqe { op_flags: self.flags, ..s };
        let s = if self.fd is Fixed { Sqe { flags: s.flags | sys::IOSQE_FIXED_FILE, ..s } } else { s };
        after == s
    }

    fn prepare(&self, sqe: &mut Sqe) {
        sqe.opcode = sys::IORING_OP_FSYNC;
        sqe.fd = target_sqe_value(self.fd);
        sqe.op_flags = self.flags;
        if let Target::Fixed(_) = self.fd {
            sqe.flags = sqe.flags | sys::IOSQE_FIXED_FILE;
        }
    }
}

/// Read into a registered buffer; `buf` is an address inside buffer `buf_index`.
#[derive(Debug, Clone, Copy, PartialEq, Eq, Structural)]
pub struct ReadFixed {
    pub fd: Target,
    pub buf: u64,
    pub len: u32,
    pub buf_index: u16,
    pub offset: i64,
    pub ioprio: u16,
    pub rw_flags: i32,
}

impl ReadFixed {
    /// The opcode of the operation, for [`Probe::is_supported`](crate::Probe::is_supported).
    pub const CODE: u8 = sys::IORING_OP_READ_FIXED;

    pub fn new(fd: impl UseFixed, buf: u64, len: u32, buf_index: u16) -> (r: Self)
        ensures
            r == (ReadFixed { fd: fd.spec_target(), buf, len, buf_index, offset: 0i64, ioprio: 0u16, rw_flags: 0i32 }),
    {
        ReadFixed { fd: UseFixed::into(fd), buf, len, buf_index, offset: 0i64, ioprio: 0u16, rw_flags: 0i32 }
    }

    pub fn offset(self, offset: i64) -> (r: Self)
        ensures
            r == (ReadFixed { offset, ..self }),
    {
        ReadFixed { offset, ..self }
    }

    pub fn ioprio(self, ioprio: u16) -> (r: Self)
        ensures
            r == (ReadFixed { ioprio, ..self }),
    {
        ReadFixed { ioprio, ..self }
    }

    pub fn rw_flags(self, rw_flags: i32) -> (r: Self)
        ensures
            r == (ReadFixed { rw_flags, ..self }),
    {
        ReadFixed { rw_flags, ..self }
    }

    /// The submission queue entry for this operation.
    pub fn build(self) -> (r: Entry)
        ensures
            self.spec_prepared(Sqe::spec_zeroed(), r@),
    {
        let mut sqe = Sqe::zeroed();
        self.prepare(&mut sqe);
        Entry::from_sqe(sqe)
    }
}

impl PrepareSQE for ReadFixed {
    open spec fn spec_prepared(&self, sqe: Sqe, after: Sqe) -> bool {
        let s = Sqe { opcode: sys::IORING_OP_READ_FIXED, ..sqe };
        let s = Sqe { fd: target_value(self.fd), ..s };
        let s = Sqe { addr: self.buf, ..s };
        let s = Sqe { len: self.len, ..s };
        let s = Sqe { buf_index: self.buf_index, ..s };
        let s = Sqe { off: (self.offset as u64), ..s };
        let s = Sqe { ioprio: self.ioprio, ..s };
        let s = Sqe { op_flags: (self.rw_flags as u32), ..s };
        let s = if self.fd is Fixed { Sqe { flags: s.flags | sys::IOSQE_FIXED_FILE, ..s } } else { s };
        after == s
    }

    fn prepare(&self, sqe: &mut Sqe) {
        sqe.opcode = sys::IORING_OP_READ_FIXED;
        sqe.fd = target_sqe_value(self.fd);
        sqe.addr = self.buf;
        sqe.len = self.len;
        sqe.buf_index = self.buf_index;
        sqe.off = self.offset as u64;
        sqe.ioprio = self.ioprio;
        sqe.op_flags = self.rw_flags as u32;
        if let Target::Fixed(_) = self.fd {
            sqe.flags = sqe.flags | sys::IOSQE_FIXED_FILE;
        }
    }
}

/// Write from a registered buffer; `buf` is an address inside buffer `buf_index`.
#[derive(Debug, Clone, Copy, PartialEq, Eq, Structural)]
pub struct WriteFixed {
    pub fd: Target,
    pub buf: u64,
    pub len: u32,
    pub buf_index: u16,
    pub ioprio: u16,
    pub offset: i64,
    pub rw_flags: i32,
}

impl WriteFixed {
    /// The opcode of the operation, for [`Probe::is_supported`](crate::Probe::is_supported).
    pub const CODE: u8 = sys::IORING_OP_WRITE_FIXED;

    pub fn new(fd: impl UseFixed, buf: u64, len: u32, buf_index: u16) -> (r: Self)
        ensures
            r == (WriteFixed { fd: fd.spec_target(), buf, len, buf_index, ioprio: 0u16, offset: 0i64, rw_flags: 0i32 }),
    {
        WriteFixed { fd: UseFixed::into(fd), buf, len, buf_index, ioprio: 0u16, offset: 0i64, rw_flags: 0i32 }
    }

    pub fn ioprio(self, ioprio: u16) -> (r: Self)
        ensures
            r == (WriteFixed { ioprio, ..self }),
    {
        WriteFixed { ioprio, ..self }
    }

    pub fn offset(self, offset: i64) -> (r: Self)
        ensures
            r == (WriteFixed { offset, ..self }),
    {
        WriteFixed { offset, ..self }
    }

    pub fn rw_flags(self, rw_flags: i32) -> (r: Self)
        ensures
            r == (WriteFixed { rw_flags, ..self }),
    {
        WriteFixed { rw_flags, ..self }
    }

    /// The submission queue entry for this operation.
    pub fn build(self) -> (r: Entry)
        ensures
            self.spec_prepared(Sqe::spec_zeroed(), r@),
    {
        let mut sqe = Sqe::zeroed();
        self.prepare(&mut sqe);
        Entry::from_sqe(sqe)
    }
}

impl PrepareSQE for WriteFixed {
    open spec fn spec_prepared(&self, sqe: Sqe, after: Sqe) -> bool {
        let s = Sqe { opcode: sys::IORING_OP_WRITE_FIXED, ..sqe };
        let s = Sqe { fd: target_value(self.fd), ..s };
        let s = Sqe { addr: self.buf, ..s };
        let s = Sqe { len: self.len, ..s };
        let s = Sqe { buf_index: self.buf_index, ..s };
        let s = Sqe { ioprio: self.ioprio, ..s };
        let s = Sqe { off: (self.offset as u64), ..s };
        let s = Sqe { op_flags: (self.rw_flags as u32), ..s };
        let s = if self.fd is Fixed { Sqe { flags: s.flags | sys::IOSQE_FIXED_FILE, ..s } } else { s };
        after == s
    }

    fn prepare(&self, sqe: &mut Sqe) {
        sqe.opcode = sys::IORING_OP_WRITE_FIXED;
        sqe.fd = target_sqe_value(self.fd);
        sqe.addr = self.buf;
        sqe.len = self.len;
        sqe.buf_index = self.buf_index;
        sqe.ioprio = self.ioprio;
        sqe.off = self.offset as u64;
        sqe.op_flags = self.rw_flags as u32;
        if let Target::Fixed(_) = self.fd {
            sqe.flags = sqe.flags | sys::IOSQE_FIXED_FILE;
        }
    }
}

/// Poll the specified fd for the events in `flags`.
#[derive(Debug, Clone, Copy, PartialEq, Eq, Structural)]
pub struct PollAdd {
    pub fd: Target,
    pub flags: u32,
}

impl PollAdd {
    /// The opcode of the operation, for [`Probe::is_supported`](crate::Probe::is_supported).
    pub const CODE: u8 = sys::IORING_OP_POLL_ADD;

    pub fn new(fd: impl UseFixed, flags: u32) -> (r: Self)
        ensures
            r == (PollAdd { fd: fd.spec_target(), flags }),
    {
        PollAdd { fd: UseFixed::into(fd), flags }
    }

    /// The submission queue entry for this operation.
    pub fn build(self) -> (r: Entry)
        ensures
            self.spec_prepared(Sqe::spec_zeroed(), r@),
    {
        let mut sqe = Sqe::zeroed();
        self.prepare(&mut sqe);
        Entry::from_sqe(sqe)
    }
}

impl PrepareSQE for PollAdd {
    /// The poll mask is stored as is on a little-endian machine and with its
    /// 16-bit halves swapped on a big-endian one; both forms are admitted here.
    open spec fn spec_prepared(&self, sqe: Sqe, after: Sqe) -> bool {
        let s = Sqe { opcode: sys::IORING_OP_POLL_ADD, ..sqe };
        let s = Sqe { fd: target_value(self.fd), ..s };
        let s = Sqe { op_flags: self.flags, ..s };
        let s = if self.fd is Fixed { Sqe { flags: s.flags | sys::IOSQE_FIXED_FILE, ..s } } else { s };
        after == s || after == (Sqe { op_flags: swap_halves(self.flags), ..s })
    }

    fn prepare(&self, sqe: &mut Sqe) {
        sqe.opcode = sys::IORING_OP_POLL_ADD;
        sqe.fd = target_sqe_value(self.fd);
        sqe.op_flags = self.flags;
        if let Target::Fixed(_) = self.fd {
            sqe.flags = sqe.flags | sys::IOSQE_FIXED_FILE;
        }
        sqe.op_flags = poll_mask_word(self.flags, u32_to_be(1));
    }
}

/// Remove an existing poll request, identified by its user data.
#[derive(Debug, Clone, Copy, PartialEq, Eq, Structural)]
pub struct PollRemove {
    pub user_data: u64,
}

impl PollRemove {
    /// The opcode of the operation, for [`Probe::is_supported`](crate::Probe::is_supported).
    pub const CODE: u8 = sys::IORING_OP_POLL_REMOVE;

    pub fn new(user_data: u64) -> (r: Self)
        ensures
            r == (PollRemove { user_data }),
    {
        PollRemove { user_data }
    }

    /// The submission queue entry for this operation.
    pub fn build(self) -> (r: Entry)
        ensures
            self.spec_prepared(Sqe::spec_zeroed(), r@),
    {
        let mut sqe = Sqe::zeroed();
        self.prepare(&mut sqe);
        Entry::from_sqe(sqe)
    }
}

impl PrepareSQE for PollRemove {
    open spec fn spec_prepared(&self, sqe: Sqe, after: Sqe) -> bool {
        let s = Sqe { opcode: sys::IORING_OP_POLL_REMOVE, ..sqe };
        let s = Sqe { addr: self.user_data, ..s };
        let s = Sqe { fd: -1i32, ..s };
        after == s
    }

    fn prepare(&self, sqe: &mut Sqe) {
        sqe.opcode = sys::IORING_OP_POLL_REMOVE;
        sqe.addr = self.user_data;
        sqe.fd = -1;
    }
}

/// Sync a file segment with disk, equivalent to `sync_file_range(2)`.
#[derive(Debug, Clone, Copy, PartialEq, Eq, Structural)]
pub struct SyncFileRange {
    pub fd: Target,
    pub len: u32,
    pub offset: i64,
    pub flags: u32,
}

impl SyncFileRange {
    /// The opcode of the operation, for [`Probe::is_supported`](crate::Probe::is_supported).
    pub const CODE: u8 = sys::IORING_OP_SYNC_FILE_RANGE;

    pub fn new(fd: impl UseFixed, len: u32) -> (r: Self)
        ensures
            r == (SyncFileRange { fd: fd.spec_target(), len, offset: 0i64, flags: 0u32 }),
    {
        SyncFileRange { fd: UseFixed::into(fd), len, offset: 0i64, flags: 0u32 }
    }

    pub fn offset(self, offset: i64) -> (r: Self)
        ensures
            r == (SyncFileRange { offset, ..self }),
    {
        SyncFileRange { offset, ..self }
    }

    pub fn flags(self, flags: u32) -> (r: Self)
        ensures
            r == (SyncFileRange { flags, ..self }),
    {
        SyncFileRange { flags, ..self }
    }

    /// The submission queue entry for this operation.
    pub fn build(self) -> (r: Entry)
        ensures
            self.spec_prepared(Sqe::spec_zeroed(), r@),
    {
        let mut sqe = Sqe::zeroed();
        self.prepare(&mut sqe);
        Entry::from_sqe(sqe)
    }
}

impl PrepareSQE for SyncFileRange {
    open spec fn spec_prepared(&self, sqe: Sqe, after: Sqe) -> bool {
        let s = Sqe { opcode: sys::IORING_OP_SYNC_FILE_RANGE, ..sqe };
        let s = Sqe { fd: target_value(self.fd), ..s };
        let s = Sqe { len: self.len, ..s };
        let s = Sqe { off: (self.offset as u64), ..s };
        let s = Sqe { op_flags: self.flags, ..s };
        let s = if self.fd is Fixed { Sqe { flags: s.flags | sys::IOSQE_FIXED_FILE, ..s } } else { s };
        after == s
    }

    fn prepare(&self, sqe: &mut Sqe) {
        sqe.opcode = sys::IORING_OP_SYNC_FILE_RANGE;
        sqe.fd = target_sqe_value(self.fd);
        sqe.len = self.len;
        sqe.off = self.offset as u64;
        sqe.op_flags = self.flags;
        if let Target::Fixed(_) = self.fd {
            sqe.flags = sqe.flags | sys::IOSQE_FIXED_FILE;
        }
    }
}

/// Send a message on a socket, equivalent to `sendmsg(2)`. `msg` is the address of the `msghdr`.
#[derive(Debug, Clone, Copy, PartialEq, Eq, Structural)]
pub struct SendMsg {
    pub fd: Target,
    pub msg: u64,
    pub ioprio: u16,
    pub flags: u32,
}

impl SendMsg {
    /// The opcode of the operation, for [`Probe::is_supported`](crate::Probe::is_supported).
    pub const CODE: u8 = sys::IORING_OP_SENDMSG;

    pub fn new(fd: impl UseFixed, msg: u64) -> (r: Self)
        ensures
            r == (SendMsg { fd: fd.spec_target(), msg, ioprio: 0u16, flags: 0u32 }),
    {
        SendMsg { fd: UseFixed::into(fd), msg, ioprio: 0u16, flags: 0u32 }
    }

    pub fn ioprio(self, ioprio: u16) -> (r: Self)
        ensures
            r == (SendMsg { ioprio, ..self }),
    {
        SendMsg { ioprio, ..self }
    }

    pub fn flags(self, flags: u32) -> (r: Self)
        ensures
            r == (SendMsg { flags, ..self }),
    {
        SendMsg { flags, ..self }
    }

    /// The submission queue entry for this operation.
    pub fn build(self) -> (r: Entry)
        ensures
            self.spec_prepared(Sqe::spec_zeroed(), r@),
    {
        let mut sqe = Sqe::zeroed();
        self.prepare(&mut sqe);
        Entry::from_sqe(sqe)
    }
}

impl PrepareSQE for SendMsg {
    open spec fn spec_prepared(&self, sqe: Sqe, after: Sqe) -> bool {
        let s = Sqe { opcode: sys::IORING_OP_SENDMSG, ..sqe };
        let s = Sqe { fd: target_value(self.fd), ..s };
        let s = Sqe { addr: self.msg, ..s };
        let s = Sqe { ioprio: self.ioprio, ..s };
        let s = Sqe { op_flags: self.flags, ..s };
        let s = if self.fd is Fixed { Sqe { flags: s.flags | sys::IOSQE_FIXED_FILE, ..s } } else { s };
        let s = Sqe { len: 1u32, ..s };
        after == s
    }

    fn prepare(&self, sqe: &mut Sqe) {
        sqe.opcode = sys::IORING_OP_SENDMSG;
        sqe.fd = target_sqe_value(self.fd);
        sqe.addr = self.msg;
        sqe.ioprio = self.ioprio;
        sqe.op_flags = self.flags;
        if let Target::Fixed(_) = self.fd {
            sqe.flags = sqe.flags | sys::IOSQE_FIXED_FILE;
        }
        sqe.len = 1;
    }
}

/// Receive a message on a socket, equivalent to `recvmsg(2)`. `msg` is the address of the `msghdr`.
#[derive(Debug, Clone, Copy, PartialEq, Eq, Structural)]
pub struct RecvMsg {
    pub fd: Target,
    pub msg: u64,
    pub ioprio: u16,
    pub flags: u32,
}

impl RecvMsg {
    /// The opcode of the operation, for [`Probe::is_supported`](crate::Probe::is_supported).
    pub const CODE: u8 = sys::IORING_OP_RECVMSG;

    pub fn new(fd: impl UseFixed, msg: u64) -> (r: Self)
        ensures
            r == (RecvMsg { fd: fd.spec_target(), msg, ioprio: 0u16, flags: 0u32 }),
    {
        RecvMsg { fd: UseFixed::into(fd), msg, ioprio: 0u16, flags: 0u32 }
    }

    pub fn ioprio(self, ioprio: u16) -> (r: Self)
        ensures
            r == (RecvMsg { ioprio, ..self }),
    {
        RecvMsg { ioprio, ..self }
    }

    pub fn flags(self, flags: u32) -> (r: Self)
        ensures
            r == (RecvMsg { flags, ..self }),
    {
        RecvMsg { flags, ..self }
    }

    /// The submission queue entry for this operation.
    pub fn build(self) -> (r: Entry)
        ensures
            self.spec_prepared(Sqe::spec_zeroed(), r@),
    {
        let mut sqe = Sqe::zeroed();
        self.prepare(&mut sqe);
        Entry::from_sqe(sqe)
    }
}

impl PrepareSQE for RecvMsg {
    open spec fn spec_prepared(&self, sqe: Sqe, after: Sqe) -> bool {
        let s = Sqe { opcode: sys::IORING_OP_RECVMSG, ..sqe };
        let s = Sqe { fd: target_value(self.fd), ..s };
        let s = Sqe { addr: self.msg, ..s };
        let s = Sqe { ioprio: self.ioprio, ..s };
        let s = Sqe { op_flags: self.flags, ..s };
        let s = if self.fd is Fixed { Sqe { flags: s.flags | sys::IOSQE_FIXED_FILE, ..s } } else { s };
        let s = Sqe { len: 1u32, ..s };
        after == s
    }

    fn prepare(&self, sqe: &mut Sqe) {
        sqe.opcode = sys::IORING_OP_RECVMSG;
        sqe.fd = target_sqe_value(self.fd);
        sqe.addr = self.msg;
        sqe.ioprio = self.ioprio;
        sqe.op_flags = self.flags;
        if let Target::Fixed(_) = self.fd {
            sqe.flags = sqe.flags | sys::IOSQE_FIXED_FILE;
        }
        sqe.len = 1;
    }
}

/// Register a timeout; `timespec` is the address of a [`Timespec`](crate::types::Timespec). It completes when the time passes or `count` other events have completed.
#[derive(Debug, Clone, Copy, PartialEq, Eq, Structural)]
pub struct Timeout {
    pub timespec: u64,
    pub count: u32,
    pub flags: u32,
}

impl Timeout {
    /// The opcode of the operation, for [`Probe::is_supported`](crate::Probe::is_supported).
    pub const CODE: u8 = sys::IORING_OP_TIMEOUT;

    pub fn new(timespec: u64) -> (r: Self)
        ensures
            r == (Timeout { timespec, count: 0u32, flags: 0u32 }),
    {
        Timeout { timespec, count: 0u32, flags: 0u32 }
    }

    pub fn count(self, count: u32) -> (r: Self)
        ensures
            r == (Timeout { count, ..self }),
    {
        Timeout { count, ..self }
    }

    pub fn flags(self, flags: u32) -> (r: Self)
        ensures
            r == (Timeout { flags, ..self }),
    {
        Timeout { flags, ..self }
    }

    /// The submission queue entry for this operation.
    pub fn build(self) -> (r: Entry)
        ensures
            self.spec_prepared(Sqe::spec_zeroed(), r@),
    {
        let mut sqe = Sqe::zeroed();
        self.prepare(&mut sqe);
        Entry::from_sqe(sqe)
    }
}

impl PrepareSQE for Timeout {
    open spec fn spec_prepared(&self, sqe: Sqe, after: Sqe) -> bool {
        let s = Sqe { opcode: sys::IORING_OP_TIMEOUT, ..sqe };
        let s = Sqe { addr: self.timespec, ..s };
        let s = Sqe { off: (self.count as u64), ..s };
        let s = Sqe { op_flags: self.flags, ..s };
        let s = Sqe { fd: -1i32, ..s };
        let s = Sqe { len: 1u32, ..s };
        after == s
    }

    fn prepare(&self, sqe: &mut Sqe) {
        sqe.opcode = sys::IORING_OP_TIMEOUT;
        sqe.addr = self.timespec;
        sqe.off = self.count as u64;
        sqe.op_flags = self.flags;
        sqe.fd = -1;
        sqe.len = 1;
    }
}

/// Attempt to remove an existing timeout, identified by its user data.
#[derive(Debug, Clone, Copy, PartialEq, Eq, Structural)]
pub struct TimeoutRemove {
    pub user_data: u64,
    pub flags: u32,
}

impl TimeoutRemove {
    /// The opcode of the operation, for [`Probe::is_supported`](crate::Probe::is_supported).
    pub const CODE: u8 = sys::IORING_OP_TIMEOUT_REMOVE;

    pub fn new(user_data: u64) -> (r: Self)
        ensures
            r == (TimeoutRemove { user_data, flags: 0u32 }),
    {
        TimeoutRemove { user_data, flags: 0u32 }
    }

    pub fn flags(self, flags: u32) -> (r: Self)
        ensures
            r == (TimeoutRemove { flags, ..self }),
    {
        TimeoutRemove { flags, ..self }
    }

    /// The submission queue entry for this operation.
    pub fn build(self) -> (r: Entry)
        ensures
            self.spec_prepared(Sqe::spec_zeroed(), r@),
    {
        let mut sqe = Sqe::zeroed();
        self.prepare(&mut sqe);
        Entry::from_sqe(sqe)
    }
}

impl PrepareSQE for TimeoutRemove {
    open spec fn spec_prepared(&self, sqe: Sqe, after: Sqe) -> bool {
        let s = Sqe { opcode: sys::IORING_OP_TIMEOUT_REMOVE, ..sqe };
        let s = Sqe { addr: self.user_data, ..s };
        let s = Sqe { op_flags: self.flags, ..s };
        let s = Sqe { fd: -1i32, ..s };
        after == s
    }

    fn prepare(&self, sqe: &mut Sqe) {
        sqe.opcode = sys::IORING_OP_TIMEOUT_REMOVE;
        sqe.addr = self.user_data;
        sqe.op_flags = self.flags;
        sqe.fd = -1;
    }
}

/// Accept a new connection on a socket, equivalent to `accept4(2)`. `addr` and `addrlen` are addresses.
#[derive(Debug, Clone, Copy, PartialEq, Eq, Structural)]
pub struct Accept {
    pub fd: Target,
    pub addr: u64,
    pub addrlen: u64,
    pub flags: i32,
}

impl Accept {
    /// The opcode of the operation, for [`Probe::is_supported`](crate::Probe::is_supported).
    pub const CODE: u8 = sys::IORING_OP_ACCEPT;

    pub fn new(fd: impl UseFixed, addr: u64, addrlen: u64) -> (r: Self)
        ensures
            r == (Accept { fd: fd.spec_target(), addr, addrlen, flags: 0i32 }),
    {
        Accept { fd: UseFixed::into(fd), addr, addrlen, flags: 0i32 }
    }

    pub fn flags(self, flags: i32) -> (r: Self)
        ensures
            r == (Accept { flags, ..self }),
    {
        Accept { flags, ..self }
    }

    /// The submission queue entry for this operation.
    pub fn build(self) -> (r: Entry)
        ensures
            self.spec_prepared(Sqe::spec_zeroed(), r@),
    {
        let mut sqe = Sqe::zeroed();
        self.prepare(&mut sqe);
        Entry::from_sqe(sqe)
    }
}

impl PrepareSQE for Accept {
    open spec fn spec_prepared(&self, sqe: Sqe, after: Sqe) -> bool {
        let s = Sqe { opcode: sys::IORING_OP_ACCEPT, ..sqe };
        let s = Sqe { fd: target_value(self.fd), ..s };
        let s = Sqe { addr: self.addr, ..s };
        let s = Sqe { off: self.addrlen, ..s };
        let s = Sqe { op_flags: (self.flags as u32), ..s };
        let s = if self.fd is Fixed { Sqe { flags: s.flags | sys::IOSQE_FIXED_FILE, ..s } } else { s };
        after == s
    }

    fn prepare(&self, sqe: &mut Sqe) {
        sqe.opcode = sys::IORING_OP_ACCEPT;
        sqe.fd = target_sqe_value(self.fd);
        sqe.addr = self.addr;
        sqe.off = self.addrlen;
        sqe.op_flags = self.flags as u32;
        if let Target::Fixed(_) = self.fd {
            sqe.flags = sqe.flags | sys::IOSQE_FIXED_FILE;
        }
    }
}

/// Attempt to cancel an already issued request, identified by its user data.
#[derive(Debug, Clone, Copy, PartialEq, Eq, Structural)]
pub struct AsyncCancel {
    pub user_data: u64,
}

impl AsyncCancel {
    /// The opcode of the operation, for [`Probe::is_supported`](crate::Probe::is_supported).
    pub const CODE: u8 = sys::IORING_OP_ASYNC_CANCEL;

    pub fn new(user_data: u64) -> (r: Self)
        ensures
            r == (AsyncCancel { user_data }),
    {
        AsyncCancel { user_data }
    }

    /// The submission queue entry for this operation.
    pub fn build(self) -> (r: Entry)
        ensures
            self.spec_prepared(Sqe::spec_zeroed(), r@),
    {
        let mut sqe = Sqe::zeroed();
        self.prepare(&mut sqe);
        Entry::from_sqe(sqe)
    }
}

impl PrepareSQE for AsyncCancel {
    open spec fn spec_prepared(&self, sqe: Sqe, after: Sqe) -> bool {
        let s = Sqe { opcode: sys::IORING_OP_ASYNC_CANCEL, ..sqe };
        let s = Sqe { addr: self.user_data, ..s };
        let s = Sqe { fd: -1i32, ..s };
        after == s
    }

    fn prepare(&self, sqe: &mut Sqe) {
        sqe.opcode = sys::IORING_OP_ASYNC_CANCEL;
        sqe.addr = self.user_data;
        sqe.fd = -1;
    }
}

/// A timeout for the previous, linked request; `timespec` is the address of a [`Timespec`](crate::types::Timespec).
#[derive(Debug, Clone, Copy, PartialEq, Eq, Structural)]
pub struct LinkTimeout {
    pub timespec: u64,
    pub flags: u32,
}

impl LinkTimeout {
    /// The opcode of the operation, for [`Probe::is_supported`](crate::Probe::is_supported).
    pub const CODE: u8 = sys::IORING_OP_LINK_TIMEOUT;

    pub fn new(timespec: u64) -> (r: Self)
        ensures
            r == (LinkTimeout { timespec, flags: 0u32 }),
    {
        LinkTimeout { timespec, flags: 0u32 }
    }

    pub fn flags(self, flags: u32) -> (r: Self)
        ensures
            r == (LinkTimeout { flags, ..self }),
    {
        LinkTimeout { flags, ..self }
    }

    /// The submission queue entry for this operation.
    pub fn build(self) -> (r: Entry)
        ensures
            self.spec_prepared(Sqe::spec_zeroed(), r@),
    {
        let mut sqe = Sqe::zeroed();
        self.prepare(&mut sqe);
        Entry::from_sqe(sqe)
    }
}

impl PrepareSQE for LinkTimeout {
    open spec fn spec_prepared(&self, sqe: Sqe, after: Sqe) -> bool {
        let s = Sqe { opcode: sys::IORING_OP_LINK_TIMEOUT, ..sqe };
        let s = Sqe { addr: self.timespec, ..s };
        let s = Sqe { op_flags: self.flags, ..s };
        let s = Sqe { fd: -1i32, ..s };
        let s = Sqe { len: 1u32, ..s };
        after == s
    }

    fn prepare(&self, sqe: &mut Sqe) {
        sqe.opcode = sys::IORING_OP_LINK_TIMEOUT;
        sqe.addr = self.timespec;
        sqe.op_flags = self.flags;
        sqe.fd = -1;
        sqe.len = 1;
    }
}

/// Connect a socket, equivalent to `connect(2)`. `addr` is the address of the `sockaddr`.
#[derive(Debug, Clone, Copy, PartialEq, Eq, Structural)]
pub struct Connect {
    pub fd: Target,
    pub addr: u64,
    pub addrlen: u32,
}

impl Connect {
    /// The opcode of the operation, for [`Probe::is_supported`](crate::Probe::is_supported).
    pub const CODE: u8 = sys::IORING_OP_CONNECT;

    pub fn new(fd: impl UseFixed, addr: u64, addrlen: u32) -> (r: Self)
        ensures
            r == (Connect { fd: fd.spec_target(), addr, addrlen }),
    {
        Connect { fd: UseFixed::into(fd), addr, addrlen }
    }

    /// The submission queue entry for this operation.
    pub fn build(self) -> (r: Entry)
        ensures
            self.spec_prepared(Sqe::spec_zeroed(), r@),
    {
        let mut sqe = Sqe::zeroed();
        self.prepare(&mut sqe);
        Entry::from_sqe(sqe)
    }
}

impl PrepareSQE for Connect {
    open spec fn spec_prepared(&self, sqe: Sqe, after: Sqe) -> bool {
        let s = Sqe { opcode: sys::IORING_OP_CONNECT, ..sqe };
        let s = Sqe { fd: target_value(self.fd), ..s };
        let s = Sqe { addr: self.addr, ..s };
        let s = Sqe { off: (self.addrlen as u64), ..s };
        let s = if self.fd is Fixed { Sqe { flags: s.flags | sys::IOSQE_FIXED_FILE, ..s } } else { s };
        after == s
    }

    fn prepare(&self, sqe: &mut Sqe) {
        sqe.opcode = sys::IORING_OP_CONNECT;
        sqe.fd = target_sqe_value(self.fd);
        sqe.addr = self.addr;
        sqe.off = self.addrlen as u64;
        if let Target::Fixed(_) = self.fd {
            sqe.flags = sqe.flags | sys::IOSQE_FIXED_FILE;
        }
    }
}

/// Preallocate or deallocate space to a file, equivalent to `fallocate(2)`.
#[derive(Debug, Clone, Copy, PartialEq, Eq, Structural)]
pub struct Fallocate {
    pub fd: Target,
    pub len: i64,
    pub offset: i64,
    pub mode: i32,
}

impl Fallocate {
    /// The opcode of the operation, for [`Probe::is_supported`](crate::Probe::is_supported).
    pub const CODE: u8 = sys::IORING_OP_FALLOCATE;

    pub fn new(fd: impl UseFixed, len: i64) -> (r: Self)
        ensures
            r == (Fallocate { fd: fd.spec_target(), len, offset: 0i64, mode: 0i32 }),
    {
        Fallocate { fd: UseFixed::into(fd), len, offset: 0i64, mode: 0i32 }
    }

    pub fn offset(self, offset: i64) -> (r: Self)
        ensures
            r == (Fallocate { offset, ..self }),
    {
        Fallocate { offset, ..self }
    }

    pub fn mode(self, mode: i32) -> (r: Self)
        ensures
            r == (Fallocate { mode, ..self }),
    {
        Fallocate { mode, ..self }
    }

    /// The submission queue entry for this operation.
    pub fn build(self) -> (r: Entry)
        ensures
            self.spec_prepared(Sqe::spec_zeroed(), r@),
    {
        let mut sqe = Sqe::zeroed();
        self.prepare(&mut sqe);
        Entry::from_sqe(sqe)
    }
}

impl PrepareSQE for Fallocate {
    open spec fn spec_prepared(&self, sqe: Sqe, after: Sqe) -> bool {
        let s = Sqe { opcode: sys::IORING_OP_FALLOCATE, ..sqe };
        let s = Sqe { fd: target_value(self.fd), ..s };
        let s = Sqe { addr: (self.len as u64), ..s };
        let s = Sqe { off: (self.offset as u64), ..s };
        let s = Sqe { len: (self.mode as u32), ..s };
        let s = if self.fd is Fixed { Sqe { flags: s.flags | sys::IOSQE_FIXED_FILE, ..s } } else { s };
        after == s
    }

    fn prepare(&self, sqe: &mut Sqe) {
        sqe.opcode = sys::IORING_OP_FALLOCATE;
        sqe.fd = target_sqe_value(self.fd);
        sqe.addr = self.len as u64;
        sqe.off = self.offset as u64;
        sqe.len = self.mode as u32;
        if let Target::Fixed(_) = self.fd {
            sqe.flags = sqe.flags | sys::IOSQE_FIXED_FILE;
        }
    }
}

/// Open a file, equivalent to `openat(2)`. `pathname` is the address of a C string.
#[derive(Debug, Clone, Copy, PartialEq, Eq, Structural)]
pub struct OpenAt {
    pub dirfd: i32,
    pub pathname: u64,
    pub flags: i32,
    pub mode: u32,
}

impl OpenAt {
    /// The opcode of the operation, for [`Probe::is_supported`](crate::Probe::is_supported).
    pub const CODE: u8 = sys::IORING_OP_OPENAT;

    pub fn new(dirfd: impl UseFd, pathname: u64) -> (r: Self)
        ensures
            r == (OpenAt { dirfd: dirfd.spec_fd(), pathname, flags: 0i32, mode: 0u32 }),
    {
        OpenAt { dirfd: UseFd::into(dirfd), pathname, flags: 0i32, mode: 0u32 }
    }

    pub fn flags(self, flags: i32) -> (r: Self)
        ensures
            r == (OpenAt { flags, ..self }),
    {
        OpenAt { flags, ..self }
    }

    pub fn mode(self, mode: u32) -> (r: Self)
        ensures
            r == (OpenAt { mode, ..self }),
    {
        OpenAt { mode, ..self }
    }

    /// The submission queue entry for this operation.
    pub fn build(self) -> (r: Entry)
        ensures
            self.spec_prepared(Sqe::spec_zeroed(), r@),
    {
        let mut sqe = Sqe::zeroed();
        self.prepare(&mut sqe);
        Entry::from_sqe(sqe)
    }
}

impl PrepareSQE for OpenAt {
    open spec fn spec_prepared(&self, sqe: Sqe, after: Sqe) -> bool {
        let s = Sqe { opcode: sys::IORING_OP_OPENAT, ..sqe };
        let s = Sqe { fd: self.dirfd, ..s };
        let s = Sqe { addr: self.pathname, ..s };
        let s = Sqe { op_flags: (self.flags as u32), ..s };
        let s = Sqe { len: self.mode, ..s };
        after == s
    }

    fn prepare(&self, sqe: &mut Sqe) {
        sqe.opcode = sys::IORING_OP_OPENAT;
        sqe.fd = self.dirfd;
        sqe.addr = self.pathname;
        sqe.op_flags = self.flags as u32;
        sqe.len = self.mode;
    }
}

/// Close a file descriptor, equivalent to `close(2)`.
#[derive(Debug, Clone, Copy, PartialEq, Eq, Structural)]
pub struct Close {
    pub fd: i32,
}

impl Close {
    /// The opcode of the operation, for [`Probe::is_supported`](crate::Probe::is_supported).
    pub const CODE: u8 = sys::IORING_OP_CLOSE;

    pub fn new(fd: impl UseFd) -> (r: Self)
        ensures
            r == (Close { fd: fd.spec_fd() }),
    {
        Close { fd: UseFd::into(fd) }
    }

    /// The submission queue entry for this operation.
    pub fn build(self) -> (r: Entry)
        ensures
            self.spec_prepared(Sqe::spec_zeroed(), r@),
    {
        let mut sqe = Sqe::zeroed();
        self.prepare(&mut sqe);
        Entry::from_sqe(sqe)
    }
}

impl PrepareSQE for Close {
    open spec fn spec_prepared(&self, sqe: Sqe, after: Sqe) -> bool {
        let s = Sqe { opcode: sys::IORING_OP_CLOSE, ..sqe };
        let s = Sqe { fd: self.fd, ..s };
        after == s
    }

    fn prepare(&self, sqe: &mut Sqe) {
        sqe.opcode = sys::IORING_OP_CLOSE;
        sqe.fd = self.fd;
    }
}

/// Update registered files from `offset` on with the `len` descriptors at address `fds`.
#[derive(Debug, Clone, Copy, PartialEq, Eq, Structural)]
pub struct FilesUpdate {
    pub fds: u64,
    pub len: u32,
    pub offset: i32,
}

impl FilesUpdate {
    /// The opcode of the operation, for [`Probe::is_supported`](crate::Probe::is_supported).
    pub const CODE: u8 = sys::IORING_OP_FILES_UPDATE;

    pub fn new(fds: u64, len: u32) -> (r: Self)
        ensures
            r == (FilesUpdate { fds, len, offset: 0i32 }),
    {
        FilesUpdate { fds, len, offset: 0i32 }
    }

    pub fn offset(self, offset: i32) -> (r: Self)
        ensures
            r == (FilesUpdate { offset, ..self }),
    {
        FilesUpdate { offset, ..self }
    }

    /// The submission queue entry for this operation.
    pub fn build(self) -> (r: Entry)
        ensures
            self.spec_prepared(Sqe::spec_zeroed(), r@),
    {
        let mut sqe = Sqe::zeroed();
        self.prepare(&mut sqe);
        Entry::from_sqe(sqe)
    }
}

impl PrepareSQE for FilesUpdate {
    open spec fn spec_prepared(&self, sqe: Sqe, after: Sqe) -> bool {
        let s = Sqe { opcode: sys::IORING_OP_FILES_UPDATE, ..sqe };
        let s = Sqe { addr: self.fds, ..s };
        let s = Sqe { len: self.len, ..s };
        let s = Sqe { off: (self.offset as u64), ..s };
        let s = Sqe { fd: -1i32, ..s };
        after == s
    }

    fn prepare(&self, sqe: &mut Sqe) {
        sqe.opcode = sys::IORING_OP_FILES_UPDATE;
        sqe.addr = self.fds;
        sqe.len = self.len;
        sqe.off = self.offset as u64;
        sqe.fd = -1;
    }
}

/// Get file status, equivalent to `statx(2)`. `pathname` and `statxbuf` are addresses.
#[derive(Debug, Clone, Copy, PartialEq, Eq, Structural)]
pub struct Statx {
    pub dirfd: i32,
    pub pathname: u64,
    pub statxbuf: u64,
    pub flags: i32,
    pub mask: u32,
}

impl Statx {
    /// The opcode of the operation, for [`Probe::is_supported`](crate::Probe::is_supported).
    pub const CODE: u8 = sys::IORING_OP_STATX;

    pub fn new(dirfd: impl UseFd, pathname: u64, statxbuf: u64) -> (r: Self)
        ensures
            r == (Statx { dirfd: dirfd.spec_fd(), pathname, statxbuf, flags: 0i32, mask: 0u32 }),
    {
        Statx { dirfd: UseFd::into(dirfd), pathname, statxbuf, flags: 0i32, mask: 0u32 }
    }

    pub fn flags(self, flags: i32) -> (r: Self)
        ensures
            r == (Statx { flags, ..self }),
    {
        Statx { flags, ..self }
    }

    pub fn mask(self, mask: u32) -> (r: Self)
        ensures
            r == (Statx { mask, ..self }),
    {
        Statx { mask, ..self }
    }

    /// The submission queue entry for this operation.
    pub fn build(self) -> (r: Entry)
        ensures
            self.spec_prepared(Sqe::spec_zeroed(), r@),
    {
        let mut sqe = Sqe::zeroed();
        self.prepare(&mut sqe);
        Entry::from_sqe(sqe)
    }
}

impl PrepareSQE for Statx {
    open spec fn spec_prepared(&self, sqe: Sqe, after: Sqe) -> bool {
        let s = Sqe { opcode: sys::IORING_OP_STATX, ..sqe };
        let s = Sqe { fd: self.dirfd, ..s };
        let s = Sqe { addr: self.pathname, ..s };
        let s = Sqe { off: self.statxbuf, ..s };
        let s = Sqe { op_flags: (self.flags as u32), ..s };
        let s = Sqe { len: self.mask, ..s };
        after == s
    }

    fn prepare(&self, sqe: &mut Sqe) {
        sqe.opcode = sys::IORING_OP_STATX;
        sqe.fd = self.dirfd;
        sqe.addr = self.pathname;
        sqe.off = self.statxbuf;
        sqe.op_flags = self.flags as u32;
        sqe.len = self.mask;
    }
}

/// Read from a file into a buffer at address `buf`, equivalent to `pread(2)`.
#[derive(Debug, Clone, Copy, PartialEq, Eq, Structural)]
pub struct Read {
    pub fd: Target,
    pub buf: u64,
    pub len: u32,
    pub offset: i64,
    pub ioprio: u16,
    pub rw_flags: i32,
    pub buf_group: u16,
}

impl Read {
    /// The opcode of the operation, for [`Probe::is_supported`](crate::Probe::is_supported).
    pub const CODE: u8 = sys::IORING_OP_READ;

    pub fn new(fd: impl UseFixed, buf: u64, len: u32) -> (r: Self)
        ensures
            r == (Read { fd: fd.spec_target(), buf, len, offset: 0i64, ioprio: 0u16, rw_flags: 0i32, buf_group: 0u16 }),
    {
        Read { fd: UseFixed::into(fd), buf, len, offset: 0i64, ioprio: 0u16, rw_flags: 0i32, buf_group: 0u16 }
    }

    pub fn offset(self, offset: i64) -> (r: Self)
        ensures
            r == (Read { offset, ..self }),
    {
        Read { offset, ..self }
    }

    pub fn ioprio(self, ioprio: u16) -> (r: Self)
        ensures
            r == (Read { ioprio, ..self }),
    {
        Read { ioprio, ..self }
    }

    pub fn rw_flags(self, rw_flags: i32) -> (r: Self)
        ensures
            r == (Read { rw_flags, ..self }),
    {
        Read { rw_flags, ..self }
    }

    pub fn buf_group(self, buf_group: u16) -> (r: Self)
        ensures
            r == (Read { buf_group, ..self }),
    {
        Read { buf_group, ..self }
    }

    /// The submission queue entry for this operation.
    pub fn build(self) -> (r: Entry)
        ensures
            self.spec_prepared(Sqe::spec_zeroed(), r@),
    {
        let mut sqe = Sqe::zeroed();
        self.prepare(&mut sqe);
        Entry::from_sqe(sqe)
    }
}

impl PrepareSQE for Read {
    open spec fn spec_prepared(&self, sqe: Sqe, after: Sqe) -> bool {
        let s = Sqe { opcode: sys::IORING_OP_READ, ..sqe };
        let s = Sqe { fd: target_value(self.fd), ..s };
        let s = Sqe { addr: self.buf, ..s };
        let s = Sqe { len: self.len, ..s };
        let s = Sqe { off: (self.offset as u64), ..s };
        let s = Sqe { ioprio: self.ioprio, ..s };
        let s = Sqe { op_flags: (self.rw_flags as u32), ..s };
        let s = Sqe { buf_index: self.buf_group, ..s };
        let s = if self.fd is Fixed { Sqe { flags: s.flags | sys::IOSQE_FIXED_FILE, ..s } } else { s };
        after == s
    }

    fn prepare(&self, sqe: &mut Sqe) {
        sqe.opcode = sys::IORING_OP_READ;
        sqe.fd = target_sqe_value(self.fd);
        sqe.addr = self.buf;
        sqe.len = self.len;
        sqe.off = self.offset as u64;
        sqe.ioprio = self.ioprio;
        sqe.op_flags = self.rw_flags as u32;
        sqe.buf_index = self.buf_group;
        if let Target::Fixed(_) = self.fd {
            sqe.flags = sqe.flags | sys::IOSQE_FIXED_FILE;
        }
    }
}

/// Write to a file from a buffer at address `buf`, equivalent to `pwrite(2)`.
#[derive(Debug, Clone, Copy, PartialEq, Eq, Structural)]
pub struct Write {
    pub fd: Target,
    pub buf: u64,
    pub len: u32,
    pub offset: i64,
    pub ioprio: u16,
    pub rw_flags: i32,
}

impl Write {
    /// The opcode of the operation, for [`Probe::is_supported`](crate::Probe::is_supported).
    pub const CODE: u8 = sys::IORING_OP_WRITE;

    pub fn new(fd: impl UseFixed, buf: u64, len: u32) -> (r: Self)
        ensures
            r == (Write { fd: fd.spec_target(), buf, len, offset: 0i64, ioprio: 0u16, rw_flags: 0i32 }),
    {
        Write { fd: UseFixed::into(fd), buf, len, offset: 0i64, ioprio: 0u16, rw_flags: 0i32 }
    }

    pub fn offset(self, offset: i64) -> (r: Self)
        ensures
            r == (Write { offset, ..self }),
    {
        Write { offset, ..self }
    }

    pub fn ioprio(self, ioprio: u16) -> (r: Self)
        ensures
            r == (Write { ioprio, ..self }),
    {
        Write { ioprio, ..self }
    }

    pub fn rw_flags(self, rw_flags: i32) -> (r: Self)
        ensures
            r == (Write { rw_flags, ..self }),
    {
        Write { rw_flags, ..self }
    }

    /// The submission queue entry for this operation.
    pub fn build(self) -> (r: Entry)
        ensures
            self.spec_prepared(Sqe::spec_zeroed(), r@),
    {
        let mut sqe = Sqe::zeroed();
        self.prepare(&mut sqe);
        Entry::from_sqe(sqe)
    }
}

impl PrepareSQE for Write {
    open spec fn spec_prepared(&self, sqe: Sqe, after: Sqe) -> bool {
        let s = Sqe { opcode: sys::IORING_OP_WRITE, ..sqe };
        let s = Sqe { fd: target_value(self.fd), ..s };
        let s = Sqe { addr: self.buf, ..s };
        let s = Sqe { len: self.len, ..s };
        let s = Sqe { off: (self.offset as u64), ..s };
        let s = Sqe { ioprio: self.ioprio, ..s };
        let s = Sqe { op_flags: (self.rw_flags as u32), ..s };
        let s = if self.fd is Fixed { Sqe { flags: s.flags | sys::IOSQE_FIXED_FILE, ..s } } else { s };
        after == s
    }

    fn prepare(&self, sqe: &mut Sqe) {
        sqe.opcode = sys::IORING_OP_WRITE;
        sqe.fd = target_sqe_value(self.fd);
        sqe.addr = self.buf;
        sqe.len = self.len;
        sqe.off = self.offset as u64;
        sqe.ioprio = self.ioprio;
        sqe.op_flags = self.rw_flags as u32;
        if let Target::Fixed(_) = self.fd {
            sqe.flags = sqe.flags | sys::IOSQE_FIXED_FILE;
        }
    }
}

/// Predeclare an access pattern for file data, equivalent to `posix_fadvise(2)`.
#[derive(Debug, Clone, Copy, PartialEq, Eq, Structural)]
pub struct Fadvise {
    pub fd: Target,
    pub len: i64,
    pub advice: i32,
    pub offset: i64,
}

impl Fadvise {
    /// The opcode of the operation, for [`Probe::is_supported`](crate::Probe::is_supported).
    pub const CODE: u8 = sys::IORING_OP_FADVISE;

    pub fn new(fd: impl UseFixed, len: i64, advice: i32) -> (r: Self)
        ensures
            r == (Fadvise { fd: fd.spec_target(), len, advice, offset: 0i64 }),
    {
        Fadvise { fd: UseFixed::into(fd), len, advice, offset: 0i64 }
    }

    pub fn offset(self, offset: i64) -> (r: Self)
        ensures
            r == (Fadvise { offset, ..self }),
    {
        Fadvise { offset, ..self }
    }

    /// The submission queue entry for this operation.
    pub fn build(self) -> (r: Entry)
        ensures
            self.spec_prepared(Sqe::spec_zeroed(), r@),
    {
        let mut sqe = Sqe::zeroed();
        self.prepare(&mut sqe);
        Entry::from_sqe(sqe)
    }
}

impl PrepareSQE for Fadvise {
    open spec fn spec_prepared(&self, sqe: Sqe, after: Sqe) -> bool {
        let s = Sqe { opcode: sys::IORING_OP_FADVISE, ..sqe };
        let s = Sqe { fd: target_value(self.fd), ..s };
        let s = Sqe { len: (self.len as u32), ..s };
        let s = Sqe { op_flags: (self.advice as u32), ..s };
        let s = Sqe { off: (self.offset as u64), ..s };
        let s = if self.fd is Fixed { Sqe { flags: s.flags | sys::IOSQE_FIXED_FILE, ..s } } else { s };
        after == s
    }

    fn prepare(&self, sqe: &mut Sqe) {
        sqe.opcode = sys::IORING_OP_FADVISE;
        sqe.fd = target_sqe_value(self.fd);
        sqe.len = self.len as u32;
        sqe.op_flags = self.advice as u32;
        sqe.off = self.offset as u64;
        if let Target::Fixed(_) = self.fd {
            sqe.flags = sqe.flags | sys::IOSQE_FIXED_FILE;
        }
    }
}

/// Give advice about use of memory at address `addr`, equivalent to `madvise(2)`.
#[derive(Debug, Clone, Copy, PartialEq, Eq, Structural)]
pub struct Madvise {
    pub addr: u64,
    pub len: i64,
    pub advice: i32,
}

impl Madvise {
    /// The opcode of the operation, for [`Probe::is_supported`](crate::Probe::is_supported).
    pub const CODE: u8 = sys::IORING_OP_MADVISE;

    pub fn new(addr: u64, len: i64, advice: i32) -> (r: Self)
        ensures
            r == (Madvise { addr, len, advice }),
    {
        Madvise { addr, len, advice }
    }

    /// The submission queue entry for this operation.
    pub fn build(self) -> (r: Entry)
        ensures
            self.spec_prepared(Sqe::spec_zeroed(), r@),
    {
        let mut sqe = Sqe::zeroed();
        self.prepare(&mut sqe);
        Entry::from_sqe(sqe)
    }
}

impl PrepareSQE for Madvise {
    open spec fn spec_prepared(&self, sqe: Sqe, after: Sqe) -> bool {
        let s = Sqe { opcode: sys::IORING_OP_MADVISE, ..sqe };
        let s = Sqe { addr: self.addr, ..s };
        let s = Sqe { len: (self.len as u32), ..s };
        let s = Sqe { op_flags: (self.advice as u32), ..s };
        let s = Sqe { fd: -1i32, ..s };
        after == s
    }

    fn prepare(&self, sqe: &mut Sqe) {
        sqe.opcode = sys::IORING_OP_MADVISE;
        sqe.addr = self.addr;
        sqe.len = self.len as u32;
        sqe.op_flags = self.advice as u32;
        sqe.fd = -1;
    }
}

/// Send a message on a socket from address `buf`, equivalent to `send(2)`.
#[derive(Debug, Clone, Copy, PartialEq, Eq, Structural)]
pub struct Send {
    pub fd: Target,
    pub buf: u64,
    pub len: u32,
    pub flags: i32,
}

impl Send {
    /// The opcode of the operation, for [`Probe::is_supported`](crate::Probe::is_supported).
    pub const CODE: u8 = sys::IORING_OP_SEND;

    pub fn new(fd: impl UseFixed, buf: u64, len: u32) -> (r: Self)
        ensures
            r == (Send { fd: fd.spec_target(), buf, len, flags: 0i32 }),
    {
        Send { fd: UseFixed::into(fd), buf, len, flags: 0i32 }
    }

    pub fn flags(self, flags: i32) -> (r: Self)
        ensures
            r == (Send { flags, ..self }),
    {
        Send { flags, ..self }
    }

    /// The submission queue entry for this operation.
    pub fn build(self) -> (r: Entry)
        ensures
            self.spec_prepared(Sqe::spec_zeroed(), r@),
    {
        let mut sqe = Sqe::zeroed();
        self.prepare(&mut sqe);
        Entry::from_sqe(sqe)
    }
}

impl PrepareSQE for Send {
    open spec fn spec_prepared(&self, sqe: Sqe, after: Sqe) -> bool {
        let s = Sqe { opcode: sys::IORING_OP_SEND, ..sqe };
        let s = Sqe { fd: target_value(self.fd), ..s };
        let s = Sqe { addr: self.buf, ..s };
        let s = Sqe { len: self.len, ..s };
        let s = Sqe { op_flags: (self.flags as u32), ..s };
        let s = if self.fd is Fixed { Sqe { flags: s.flags | sys::IOSQE_FIXED_FILE, ..s } } else { s };
        after == s
    }

    fn prepare(&self, sqe: &mut Sqe) {
        sqe.opcode = sys::IORING_OP_SEND;
        sqe.fd = target_sqe_value(self.fd);
        sqe.addr = self.buf;
        sqe.len = self.len;
        sqe.op_flags = self.flags as u32;
        if let Target::Fixed(_) = self.fd {
            sqe.flags = sqe.flags | sys::IOSQE_FIXED_FILE;
        }
    }
}

/// Receive a message from a socket into address `buf`, equivalent to `recv(2)`.
#[derive(Debug, Clone, Copy, PartialEq, Eq, Structural)]
pub struct Recv {
    pub fd: Target,
    pub buf: u64,
    pub len: u32,
    pub flags: i32,
    pub buf_group: u16,
}

impl Recv {
    /// The opcode of the operation, for [`Probe::is_supported`](crate::Probe::is_supported).
    pub const CODE: u8 = sys::IORING_OP_RECV;

    pub fn new(fd: impl UseFixed, buf: u64, len: u32) -> (r: Self)
        ensures
            r == (Recv { fd: fd.spec_target(), buf, len, flags: 0i32, buf_group: 0u16 }),
    {
        Recv { fd: UseFixed::into(fd), buf, len, flags: 0i32, buf_group: 0u16 }
    }

    pub fn flags(self, flags: i32) -> (r: Self)
        ensures
            r == (Recv { flags, ..self }),
    {
        Recv { flags, ..self }
    }

    pub fn buf_group(self, buf_group: u16) -> (r: Self)
        ensures
            r == (Recv { buf_group, ..self }),
    {
        Recv { buf_group, ..self }
    }

    /// The submission queue entry for this operation.
    pub fn build(self) -> (r: Entry)
        ensures
            self.spec_prepared(Sqe::spec_zeroed(), r@),
    {
        let mut sqe = Sqe::zeroed();
        self.prepare(&mut sqe);
        Entry::from_sqe(sqe)
    }
}

impl PrepareSQE for Recv {
    open spec fn spec_prepared(&self, sqe: Sqe, after: Sqe) -> bool {
        let s = Sqe { opcode: sys::IORING_OP_RECV, ..sqe };
        let s = Sqe { fd: target_value(self.fd), ..s };
        let s = Sqe { addr: self.buf, ..s };
        let s = Sqe { len: self.len, ..s };
        let s = Sqe { op_flags: (self.flags as u32), ..s };
        let s = Sqe { buf_index: self.buf_group, ..s };
        let s = if self.fd is Fixed { Sqe { flags: s.flags | sys::IOSQE_FIXED_FILE, ..s } } else { s };
        after == s
    }

    fn prepare(&self, sqe: &mut Sqe) {
        sqe.opcode = sys::IORING_OP_RECV;
        sqe.fd = target_sqe_value(self.fd);
        sqe.addr = self.buf;
        sqe.len = self.len;
        sqe.op_flags = self.flags as u32;
        sqe.buf_index = self.buf_group;
        if let Target::Fixed(_) = self.fd {
            sqe.flags = sqe.flags | sys::IOSQE_FIXED_FILE;
        }
    }
}

/// Open a file, equivalent to `openat2(2)`. `pathname` and `how` (an [`OpenHow`](crate::types::OpenHow)) are addresses.
#[derive(Debug, Clone, Copy, PartialEq, Eq, Structural)]
pub struct OpenAt2 {
    pub dirfd: i32,
    pub pathname: u64,
    pub how: u64,
}

impl OpenAt2 {
    /// The opcode of the operation, for [`Probe::is_supported`](crate::Probe::is_supported).
    pub const CODE: u8 = sys::IORING_OP_OPENAT2;

    pub fn new(dirfd: impl UseFd, pathname: u64, how: u64) -> (r: Self)
        ensures
            r == (OpenAt2 { dirfd: dirfd.spec_fd(), pathname, how }),
    {
        OpenAt2 { dirfd: UseFd::into(dirfd), pathname, how }
    }

    /// The submission queue entry for this operation.
    pub fn build(self) -> (r: Entry)
        ensures
            self.spec_prepared(Sqe::spec_zeroed(), r@),
    {
        let mut sqe = Sqe::zeroed();
        self.prepare(&mut sqe);
        Entry::from_sqe(sqe)
    }
}

impl PrepareSQE for OpenAt2 {
    open spec fn spec_prepared(&self, sqe: Sqe, after: Sqe) -> bool {
        let s = Sqe { opcode: sys::IORING_OP_OPENAT2, ..sqe };
        let s = Sqe { fd: self.dirfd, ..s };
        let s = Sqe { addr: self.pathname, ..s };
        let s = Sqe { off: self.how, ..s };
        let s = Sqe { len: OPEN_HOW_SIZE, ..s };
        after == s
    }

    fn prepare(&self, sqe: &mut Sqe) {
        sqe.opcode = sys::IORING_OP_OPENAT2;
        sqe.fd = self.dirfd;
        sqe.addr = self.pathname;
        sqe.off = self.how;
        sqe.len = OPEN_HOW_SIZE;
    }
}

/// Modify an epoll file descriptor, equivalent to `epoll_ctl(2)`. `ev` is the address of the event.
#[derive(Debug, Clone, Copy, PartialEq, Eq, Structural)]
pub struct EpollCtl {
    pub epfd: Target,
    pub fd: i32,
    pub op: i32,
    pub ev: u64,
}

impl EpollCtl {
    /// The opcode of the operation, for [`Probe::is_supported`](crate::Probe::is_supported).
    pub const CODE: u8 = sys::IORING_OP_EPOLL_CTL;

    pub fn new(epfd: impl UseFixed, fd: impl UseFd, op: i32, ev: u64) -> (r: Self)
        ensures
            r == (EpollCtl { epfd: epfd.spec_target(), fd: fd.spec_fd(), op, ev }),
    {
        EpollCtl { epfd: UseFixed::into(epfd), fd: UseFd::into(fd), op, ev }
    }

    /// The submission queue entry for this operation.
    pub fn build(self) -> (r: Entry)
        ensures
            self.spec_prepared(Sqe::spec_zeroed(), r@),
    {
        let mut sqe = Sqe::zeroed();
        self.prepare(&mut sqe);
        Entry::from_sqe(sqe)
    }
}

impl PrepareSQE for EpollCtl {
    open spec fn spec_prepared(&self, sqe: Sqe, after: Sqe) -> bool {
        let s = Sqe { opcode: sys::IORING_OP_EPOLL_CTL, ..sqe };
        let s = Sqe { fd: target_value(self.epfd), ..s };
        let s = Sqe { off: (self.fd as u64), ..s };
        let s = Sqe { len: (self.op as u32), ..s };
        let s = Sqe { addr: self.ev, ..s };
        let s = if self.epfd is Fixed { Sqe { flags: s.flags | sys::IOSQE_FIXED_FILE, ..s } } else { s };
        after == s
    }

    fn prepare(&self, sqe: &mut Sqe) {
        sqe.opcode = sys::IORING_OP_EPOLL_CTL;
        sqe.fd = target_sqe_value(self.epfd);
        sqe.off = self.fd as u64;
        sqe.len = self.op as u32;
        sqe.addr = self.ev;
        if let Target::Fixed(_) = self.epfd {
            sqe.flags = sqe.flags | sys::IOSQE_FIXED_FILE;
        }
    }
}

/// Splice data to or from a pipe, equivalent to `splice(2)`.
#[derive(Debug, Clone, Copy, PartialEq, Eq, Structural)]
pub struct Splice {
    pub fd_in: Target,
    pub off_in: i64,
    pub fd_out: Target,
    pub off_out: i64,
    pub len: u32,
    pub flags: u32,
}

impl Splice {
    /// The opcode of the operation, for [`Probe::is_supported`](crate::Probe::is_supported).
    pub const CODE: u8 = sys::IORING_OP_SPLICE;

    pub fn new(fd_in: impl UseFixed, off_in: i64, fd_out: impl UseFixed, off_out: i64, len: u32) -> (r: Self)
        ensures
            r == (Splice { fd_in: fd_in.spec_target(), off_in, fd_out: fd_out.spec_target(), off_out, len, flags: 0u32 }),
    {
        Splice { fd_in: UseFixed::into(fd_in), off_in, fd_out: UseFixed::into(fd_out), off_out, len, flags: 0u32 }
    }

    pub fn flags(self, flags: u32) -> (r: Self)
        ensures
            r == (Splice { flags, ..self }),
    {
        Splice { flags, ..self }
    }

    /// The submission queue entry for this operation.
    pub fn build(self) -> (r: Entry)
        ensures
            self.spec_prepared(Sqe::spec_zeroed(), r@),
    {
        let mut sqe = Sqe::zeroed();
        self.prepare(&mut sqe);
        Entry::from_sqe(sqe)
    }
}

impl PrepareSQE for Splice {
    open spec fn spec_prepared(&self, sqe: Sqe, after: Sqe) -> bool {
        let s = Sqe { opcode: sys::IORING_OP_SPLICE, ..sqe };
        let s = Sqe { splice_fd_in: target_value(self.fd_in), ..s };
        let s = Sqe { addr: (self.off_in as u64), ..s };
        let s = Sqe { fd: target_value(self.fd_out), ..s };
        let s = Sqe { off: (self.off_out as u64), ..s };
        let s = Sqe { len: self.len, ..s };
        let s = Sqe { op_flags: self.flags, ..s };
        let s = if self.fd_out is Fixed { Sqe { flags: s.flags | sys::IOSQE_FIXED_FILE, ..s } } else { s };
        let s = if self.fd_in is Fixed { Sqe { op_flags: self.flags | sys::SPLICE_F_FD_IN_FIXED, ..s } } else { s };
        after == s
    }

    fn prepare(&self, sqe: &mut Sqe) {
        sqe.opcode = sys::IORING_OP_SPLICE;
        sqe.splice_fd_in = target_sqe_value(self.fd_in);
        sqe.addr = self.off_in as u64;
        sqe.fd = target_sqe_value(self.fd_out);
        sqe.off = self.off_out as u64;
        sqe.len = self.len;
        sqe.op_flags = self.flags;
        if let Target::Fixed(_) = self.fd_out {
            sqe.flags = sqe.flags | sys::IOSQE_FIXED_FILE;
        }
        if let Target::Fixed(_) = self.fd_in {
            sqe.op_flags = self.flags | sys::SPLICE_F_FD_IN_FIXED;
        }
    }
}

/// Provide `nbufs` buffers of `len` bytes from address `addr` to group `bgid`, with ids from `bid` on.
#[derive(Debug, Clone, Copy, PartialEq, Eq, Structural)]
pub struct ProvideBuffers {
    pub addr: u64,
    pub len: i32,
    pub nbufs: u16,
    pub bgid: u16,
    pub bid: u16,
}

impl ProvideBuffers {
    /// The opcode of the operation, for [`Probe::is_supported`](crate::Probe::is_supported).
    pub const CODE: u8 = sys::IORING_OP_PROVIDE_BUFFERS;

    pub fn new(addr: u64, len: i32, nbufs: u16, bgid: u16, bid: u16) -> (r: Self)
        ensures
            r == (ProvideBuffers { addr, len, nbufs, bgid, bid }),
    {
        ProvideBuffers { addr, len, nbufs, bgid, bid }
    }

    /// The submission queue entry for this operation.
    pub fn build(self) -> (r: Entry)
        ensures
            self.spec_prepared(Sqe::spec_zeroed(), r@),
    {
        let mut sqe = Sqe::zeroed();
        self.prepare(&mut sqe);
        Entry::from_sqe(sqe)
    }
}

impl PrepareSQE for ProvideBuffers {
    open spec fn spec_prepared(&self, sqe: Sqe, after: Sqe) -> bool {
        let s = Sqe { opcode: sys::IORING_OP_PROVIDE_BUFFERS, ..sqe };
        let s = Sqe { addr: self.addr, ..s };
        let s = Sqe { len: (self.len as u32), ..s };
        let s = Sqe { fd: (self.nbufs as i32), ..s };
        let s = Sqe { buf_index: self.bgid, ..s };
        let s = Sqe { off: (self.bid as u64), ..s };
        after == s
    }

    fn prepare(&self, sqe: &mut Sqe) {
        sqe.opcode = sys::IORING_OP_PROVIDE_BUFFERS;
        sqe.addr = self.addr;
        sqe.len = self.len as u32;
        sqe.fd = self.nbufs as i32;
        sqe.buf_index = self.bgid;
        sqe.off = self.bid as u64;
    }
}

/// Remove `nbufs` buffers from group `bgid`.
#[derive(Debug, Clone, Copy, PartialEq, Eq, Structural)]
pub struct RemoveBuffers {
    pub nbufs: u16,
    pub bgid: u16,
}

impl RemoveBuffers {
    /// The opcode of the operation, for [`Probe::is_supported`](crate::Probe::is_supported).
    pub const CODE: u8 = sys::IORING_OP_REMOVE_BUFFERS;

    pub fn new(nbufs: u16, bgid: u16) -> (r: Self)
        ensures
            r == (RemoveBuffers { nbufs, bgid }),
    {
        RemoveBuffers { nbufs, bgid }
    }

    /// The submission queue entry for this operation.
    pub fn build(self) -> (r: Entry)
        ensures
            self.spec_prepared(Sqe::spec_zeroed(), r@),
    {
        let mut sqe = Sqe::zeroed();
        self.prepare(&mut sqe);
        Entry::from_sqe(sqe)
    }
}

impl PrepareSQE for RemoveBuffers {
    open spec fn spec_prepared(&self, sqe: Sqe, after: Sqe) -> bool {
        let s = Sqe { opcode: sys::IORING_OP_REMOVE_BUFFERS, ..sqe };
        let s = Sqe { fd: (self.nbufs as i32), ..s };
        let s = Sqe { buf_index: self.bgid, ..s };
        after == s
    }

    fn prepare(&self, sqe: &mut Sqe) {
        sqe.opcode = sys::IORING_OP_REMOVE_BUFFERS;
        sqe.fd = self.nbufs as i32;
        sqe.buf_index = self.bgid;
    }
}

/// Duplicate pipe content, equivalent to `tee(2)`.
#[derive(Debug, Clone, Copy, PartialEq, Eq, Structural)]
pub struct Tee {
    pub fd_in: Target,
    pub fd_out: Target,
    pub len: u32,
    pub flags: u32,
}

impl Tee {
    /// The opcode of the operation, for [`Probe::is_supported`](crate::Probe::is_supported).
    pub const CODE: u8 = sys::IORING_OP_TEE;

    pub fn new(fd_in: impl UseFixed, fd_out: impl UseFixed, len: u32) -> (r: Self)
        ensures
            r == (Tee { fd_in: fd_in.spec_target(), fd_out: fd_out.spec_target(), len, flags: 0u32 }),
    {
        Tee { fd_in: UseFixed::into(fd_in), fd_out: UseFixed::into(fd_out), len, flags: 0u32 }
    }

    pub fn flags(self, flags: u32) -> (r: Self)
        ensures
            r == (Tee { flags, ..self }),
    {
        Tee { flags, ..self }
    }

    /// The submission queue entry for this operation.
    pub fn build(self) -> (r: Entry)
        ensures
            self.spec_prepared(Sqe::spec_zeroed(), r@),
    {
        let mut sqe = Sqe::zeroed();
        self.prepare(&mut sqe);
        Entry::from_sqe(sqe)
    }
}

impl PrepareSQE for Tee {
    open spec fn spec_prepared(&self, sqe: Sqe, after: Sqe) -> bool {
        let s = Sqe { opcode: sys::IORING_OP_TEE, ..sqe };
        let s = Sqe { splice_fd_in: target_value(self.fd_in), ..s };
        let s = Sqe { fd: target_value(self.fd_out), ..s };
        let s = Sqe { len: self.len, ..s };
        let s = Sqe { op_flags: self.flags, ..s };
        let s = if self.fd_out is Fixed { Sqe { flags: s.flags | sys::IOSQE_FIXED_FILE, ..s } } else { s };
        let s = if self.fd_in is Fixed { Sqe { op_flags: self.flags | sys::SPLICE_F_FD_IN_FIXED, ..s } } else { s };
        after == s
    }

    fn prepare(&self, sqe: &mut Sqe) {
        sqe.opcode = sys::IORING_OP_TEE;
        sqe.splice_fd_in = target_sqe_value(self.fd_in);
        sqe.fd = target_sqe_value(self.fd_out);
        sqe.len = self.len;
        sqe.op_flags = self.flags;
        if let Target::Fixed(_) = self.fd_out {
            sqe.flags = sqe.flags | sys::IOSQE_FIXED_FILE;
        }
        if let Target::Fixed(_) = self.fd_in {
            sqe.op_flags = self.flags | sys::SPLICE_F_FD_IN_FIXED;
        }
    }
}

/// Shut down all or part of a connection, equivalent to `shutdown(2)`.
#[derive(Debug, Clone, Copy, PartialEq, Eq, Structural)]
pub struct Shutdown {
    pub fd: Target,
    pub how: i32,
}

impl Shutdown {
    /// The opcode of the operation, for [`Probe::is_supported`](crate::Probe::is_supported).
    pub const CODE: u8 = sys::IORING_OP_SHUTDOWN;

    pub fn new(fd: impl UseFixed, how: i32) -> (r: Self)
        ensures
            r == (Shutdown { fd: fd.spec_target(), how }),
    {
        Shutdown { fd: UseFixed::into(fd), how }
    }

    /// The submission queue entry for this operation.
    pub fn build(self) -> (r: Entry)
        ensures
            self.spec_prepared(Sqe::spec_zeroed(), r@),
    {
        let mut sqe = Sqe::zeroed();
        self.prepare(&mut sqe);
        Entry::from_sqe(sqe)
    }
}

impl PrepareSQE for Shutdown {
    open spec fn spec_prepared(&self, sqe: Sqe, after: Sqe) -> bool {
        let s = Sqe { opcode: sys::IORING_OP_SHUTDOWN, ..sqe };
        let s = Sqe { fd: target_value(self.fd), ..s };
        let s = Sqe { len: (self.how as u32), ..s };
        let s = if self.fd is Fixed { Sqe { flags: s.flags | sys::IOSQE_FIXED_FILE, ..s } } else { s };
        after == s
    }

    fn prepare(&self, sqe: &mut Sqe) {
        sqe.opcode = sys::IORING_OP_SHUTDOWN;
        sqe.fd = target_sqe_value(self.fd);
        sqe.len = self.how as u32;
        if let Target::Fixed(_) = self.fd {
            sqe.flags = sqe.flags | sys::IOSQE_FIXED_FILE;
        }
    }
}

/// Rename a file, equivalent to `renameat2(2)`. The paths are addresses of C strings.
#[derive(Debug, Clone, Copy, PartialEq, Eq, Structural)]
pub struct RenameAt {
    pub olddirfd: i32,
    pub oldpath: u64,
    pub newdirfd: i32,
    pub newpath: u64,
    pub flags: u32,
}

impl RenameAt {
    /// The opcode of the operation, for [`Probe::is_supported`](crate::Probe::is_supported).
    pub const CODE: u8 = sys::IORING_OP_RENAMEAT;

    pub fn new(olddirfd: impl UseFd, oldpath: u64, newdirfd: impl UseFd, newpath: u64) -> (r: Self)
        ensures
            r == (RenameAt { olddirfd: olddirfd.spec_fd(), oldpath, newdirfd: newdirfd.spec_fd(), newpath, flags: 0u32 }),
    {
        RenameAt { olddirfd: UseFd::into(olddirfd), oldpath, newdirfd: UseFd::into(newdirfd), newpath, flags: 0u32 }
    }

    pub fn flags(self, flags: u32) -> (r: Self)
        ensures
            r == (RenameAt { flags, ..self }),
    {
        RenameAt { flags, ..self }
    }

    /// The submission queue entry for this operation.
    pub fn build(self) -> (r: Entry)
        ensures
            self.spec_prepared(Sqe::spec_zeroed(), r@),
    {
        let mut sqe = Sqe::zeroed();
        self.prepare(&mut sqe);
        Entry::from_sqe(sqe)
    }
}

impl PrepareSQE for RenameAt {
    open spec fn spec_prepared(&self, sqe: Sqe, after: Sqe) -> bool {
        let s = Sqe { opcode: sys::IORING_OP_RENAMEAT, ..sqe };
        let s = Sqe { fd: self.olddirfd, ..s };
        let s = Sqe { addr: self.oldpath, ..s };
        let s = Sqe { len: (self.newdirfd as u32), ..s };
        let s = Sqe { off: self.newpath, ..s };
        let s = Sqe { op_flags: self.flags, ..s };
        after == s
    }

    fn prepare(&self, sqe: &mut Sqe) {
        sqe.opcode = sys::IORING_OP_RENAMEAT;
        sqe.fd = self.olddirfd;
        sqe.addr = self.oldpath;
        sqe.len = self.newdirfd as u32;
        sqe.off = self.newpath;
        sqe.op_flags = self.flags;
    }
}

/// Delete a name, equivalent to `unlinkat(2)`. `pathname` is the address of a C string.
#[derive(Debug, Clone, Copy, PartialEq, Eq, Structural)]
pub struct UnlinkAt {
    pub dirfd: i32,
    pub pathname: u64,
    pub flags: i32,
}

impl UnlinkAt {
    /// The opcode of the operation, for [`Probe::is_supported`](crate::Probe::is_supported).
    pub const CODE: u8 = sys::IORING_OP_UNLINKAT;

    pub fn new(dirfd: impl UseFd, pathname: u64) -> (r: Self)
        ensures
            r == (UnlinkAt { dirfd: dirfd.spec_fd(), pathname, flags: 0i32 }),
    {
        UnlinkAt { dirfd: UseFd::into(dirfd), pathname, flags: 0i32 }
    }

    pub fn flags(self, flags: i32) -> (r: Self)
        ensures
            r == (UnlinkAt { flags, ..self }),
    {
        UnlinkAt { flags, ..self }
    }

    /// The submission queue entry for this operation.
    pub fn build(self) -> (r: Entry)
        ensures
            self.spec_prepared(Sqe::spec_zeroed(), r@),
    {
        let mut sqe = Sqe::zeroed();
        self.prepare(&mut sqe);
        Entry::from_sqe(sqe)
    }
}

impl PrepareSQE for UnlinkAt {
    open spec fn spec_prepared(&self, sqe: Sqe, after: Sqe) -> bool {
        let s = Sqe { opcode: sys::IORING_OP_UNLINKAT, ..sqe };
        let s = Sqe { fd: self.dirfd, ..s };
        let s = Sqe { addr: self.pathname, ..s };
        let s = Sqe { op_flags: (self.flags as u32), ..s };
        after == s
    }

    fn prepare(&self, sqe: &mut Sqe) {
        sqe.opcode = sys::IORING_OP_UNLINKAT;
        sqe.fd = self.dirfd;
        sqe.addr = self.pathname;
        sqe.op_flags = self.flags as u32;
    }
}

/// Create a directory, equivalent to `mkdirat(2)`. `pathname` is the address of a C string.
#[derive(Debug, Clone, Copy, PartialEq, Eq, Structural)]
pub struct MkDirAt {
    pub dirfd: i32,
    pub pathname: u64,
    pub mode: u32,
}

impl MkDirAt {
    /// The opcode of the operation, for [`Probe::is_supported`](crate::Probe::is_supported).
    pub const CODE: u8 = sys::IORING_OP_MKDIRAT;

    pub fn new(dirfd: impl UseFd, pathname: u64) -> (r: Self)
        ensures
            r == (MkDirAt { dirfd: dirfd.spec_fd(), pathname, mode: 0u32 }),
    {
        MkDirAt { dirfd: UseFd::into(dirfd), pathname, mode: 0u32 }
    }

    pub fn mode(self, mode: u32) -> (r: Self)
        ensures
            r == (MkDirAt { mode, ..self }),
    {
        MkDirAt { mode, ..self }
    }

    /// The submission queue entry for this operation.
    pub fn build(self) -> (r: Entry)
        ensures
            self.spec_prepared(Sqe::spec_zeroed(), r@),
    {
        let mut sqe = Sqe::zeroed();
        self.prepare(&mut sqe);
        Entry::from_sqe(sqe)
    }
}

impl PrepareSQE for MkDirAt {
    open spec fn spec_prepared(&self, sqe: Sqe, after: Sqe) -> bool {
        let s = Sqe { opcode: sys::IORING_OP_MKDIRAT, ..sqe };
        let s = Sqe { fd: self.dirfd, ..s };
        let s = Sqe { addr: self.pathname, ..s };
        let s = Sqe { len: self.mode, ..s };
        after == s
    }

    fn prepare(&self, sqe: &mut Sqe) {
        sqe.opcode = sys::IORING_OP_MKDIRAT;
        sqe.fd = self.dirfd;
        sqe.addr = self.pathname;
        sqe.len = self.mode;
    }
}

/// Create a symlink, equivalent to `symlinkat(2)`. The paths are addresses of C strings.
#[derive(Debug, Clone, Copy, PartialEq, Eq, Structural)]
pub struct SymlinkAt {
    pub newdirfd: i32,
    pub target: u64,
    pub linkpath: u64,
}

impl SymlinkAt {
    /// The opcode of the operation, for [`Probe::is_supported`](crate::Probe::is_supported).
    pub const CODE: u8 = sys::IORING_OP_SYMLINKAT;

    pub fn new(newdirfd: impl UseFd, target: u64, linkpath: u64) -> (r: Self)
        ensures
            r == (SymlinkAt { newdirfd: newdirfd.spec_fd(), target, linkpath }),
    {
        SymlinkAt { newdirfd: UseFd::into(newdirfd), target, linkpath }
    }

    /// The submission queue entry for this operation.
    pub fn build(self) -> (r: Entry)
        ensures
            self.spec_prepared(Sqe::spec_zeroed(), r@),
    {
        let mut sqe = Sqe::zeroed();
        self.prepare(&mut sqe);
        Entry::from_sqe(sqe)
    }
}

impl PrepareSQE for SymlinkAt {
    open spec fn spec_prepared(&self, sqe: Sqe, after: Sqe) -> bool {
        let s = Sqe { opcode: sys::IORING_OP_SYMLINKAT, ..sqe };
        let s = Sqe { fd: self.newdirfd, ..s };
        let s = Sqe { addr: self.target, ..s };
        let s = Sqe { off: self.linkpath, ..s };
        after == s
    }

    fn prepare(&self, sqe: &mut Sqe) {
        sqe.opcode = sys::IORING_OP_SYMLINKAT;
        sqe.fd = self.newdirfd;
        sqe.addr = self.target;
        sqe.off = self.linkpath;
    }
}

/// Create a hard link, equivalent to `linkat(2)`. The paths are addresses of C strings.
#[derive(Debug, Clone, Copy, PartialEq, Eq, Structural)]
pub struct LinkAt {
    pub olddirfd: i32,
    pub oldpath: u64,
    pub newdirfd: i32,
    pub newpath: u64,
    pub flags: i32,
}

impl LinkAt {
    /// The opcode of the operation, for [`Probe::is_supported`](crate::Probe::is_supported).
    pub const CODE: u8 = sys::IORING_OP_LINKAT;

    pub fn new(olddirfd: impl UseFd, oldpath: u64, newdirfd: impl UseFd, newpath: u64) -> (r: Self)
        ensures
            r == (LinkAt { olddirfd: olddirfd.spec_fd(), oldpath, newdirfd: newdirfd.spec_fd(), newpath, flags: 0i32 }),
    {
        LinkAt { olddirfd: UseFd::into(olddirfd), oldpath, newdirfd: UseFd::into(newdirfd), newpath, flags: 0i32 }
    }

    pub fn flags(self, flags: i32) -> (r: Self)
        ensures
            r == (LinkAt { flags, ..self }),
    {
        LinkAt { flags, ..self }
    }

    /// The submission queue entry for this operation.
    pub fn build(self) -> (r: Entry)
        ensures
            self.spec_prepared(Sqe::spec_zeroed(), r@),
    {
        let mut sqe = Sqe::zeroed();
        self.prepare(&mut sqe);
        Entry::from_sqe(sqe)
    }
}

impl PrepareSQE for LinkAt {
    open spec fn spec_prepared(&self, sqe: Sqe, after: Sqe) -> bool {
        let s = Sqe { opcode: sys::IORING_OP_LINKAT, ..sqe };
        let s = Sqe { fd: self.olddirfd, ..s };
        let s = Sqe { addr: self.oldpath, ..s };
        let s = Sqe { len: (self.newdirfd as u32), ..s };
        let s = Sqe { off: self.newpath, ..s };
        let s = Sqe { op_flags: (self.flags as u32), ..s };
        after == s
    }

    fn prepare(&self, sqe: &mut Sqe) {
        sqe.opcode = sys::IORING_OP_LINKAT;
        sqe.fd = self.olddirfd;
        sqe.addr = self.oldpath;
        sqe.len = self.newdirfd as u32;
        sqe.off = self.newpath;
        sqe.op_flags = self.flags as u32;
    }
}

/// OR-ing into a zero byte gives the other operand.
proof fn lemma_zero_or_u8(x: u8)
    by (bit_vector)
    ensures
        0u8 | x == x,
{
}

/// What a built [`Nop`] entry holds: each field of the submission entry, from
/// the operation's arguments or zero, whatever [`Nop::build`] is given.
pub proof fn lemma_nop_entry(op: Nop, e: Sqe)
    requires
        op.spec_prepared(Sqe::spec_zeroed(), e),
    ensures
        e.opcode == sys::IORING_OP_NOP,
        e.flags == 0u8,
        e.ioprio == 0u16,
        e.fd == -1i32,
        e.off == 0u64,
        e.addr == 0u64,
        e.len == 0u32,
        e.op_flags == 0u32,
        e.user_data == 0u64,
        e.buf_index == 0u16,
        e.personality == 0u16,
        e.splice_fd_in == 0i32,
        e.addr3 == 0u64,
        e.pad2 == 0u64,
{
}

/// What a built [`Readv`] entry holds: each field of the submission entry, from
/// the operation's arguments or zero, whatever [`Readv::build`] is given.
pub proof fn lemma_readv_entry(op: Readv, e: Sqe)
    requires
        op.spec_prepared(Sqe::spec_zeroed(), e),
    ensures
        e.opcode == sys::IORING_OP_READV,
        e.flags == (if op.fd is Fixed { sys::IOSQE_FIXED_FILE } else { 0u8 }),
        e.ioprio == op.ioprio,
        e.fd == (match op.fd { Target::Fd(v) => v, Target::Fixed(i) => i as i32 }),
        e.off == (op.offset as u64),
        e.addr == op.iovec,
        e.len == op.len,
        e.op_flags == (op.rw_flags as u32),
        e.user_data == 0u64,
        e.buf_index == 0u16,
        e.personality == 0u16,
        e.splice_fd_in == 0i32,
        e.addr3 == 0u64,
        e.pad2 == 0u64,
{
    lemma_zero_or_u8(sys::IOSQE_FIXED_FILE);
}

/// What a built [`Writev`] entry holds: each field of the submission entry, from
/// the operation's arguments or zero, whatever [`Writev::build`] is given.
pub proof fn lemma_writev_entry(op: Writev, e: Sqe)
    requires
        op.spec_prepared(Sqe::spec_zeroed(), e),
    ensures
        e.opcode == sys::IORING_OP_WRITEV,
        e.flags == (if op.fd is Fixed { sys::IOSQE_FIXED_FILE } else { 0u8 }),
        e.ioprio == op.ioprio,
        e.fd == (match op.fd { Target::Fd(v) => v, Target::Fixed(i) => i as i32 }),
        e.off == (op.offset as u64),
        e.addr == op.iovec,
        e.len == op.len,
        e.op_flags == (op.rw_flags as u32),
        e.user_data == 0u64,
        e.buf_index == 0u16,
        e.personality == 0u16,
        e.splice_fd_in == 0i32,
        e.addr3 == 0u64,
        e.pad2 == 0u64,
{
    lemma_zero_or_u8(sys::IOSQE_FIXED_FILE);
}

/// What a built [`Fsync`] entry holds: each field of the submission entry, from
/// the operation's arguments or zero, whatever [`Fsync::build`] is given.
pub proof fn lemma_fsync_entry(op: Fsync, e: Sqe)
    requires
        op.spec_prepared(Sqe::spec_zeroed(), e),
    ensures
        e.opcode == sys::IORING_OP_FSYNC,
        e.flags == (if op.fd is Fixed { sys::IOSQE_FIXED_FILE } else { 0u8 }),
        e.ioprio == 0u16,
        e.fd == (match op.fd { Target::Fd(v) => v, Target::Fixed(i) => i as i32 }),
        e.off == 0u64,
        e.addr == 0u64,
        e.len == 0u32,
        e.op_flags == op.flags,
        e.user_data == 0u64,
        e.buf_index == 0u16,
        e.personality == 0u16,
        e.splice_fd_in == 0i32,
        e.addr3 == 0u64,
        e.pad2 == 0u64,
{
    lemma_zero_or_u8(sys::IOSQE_FIXED_FILE);
}

/// What a built [`ReadFixed`] entry holds: each field of the submission entry, from
/// the operation's arguments or zero, whatever [`ReadFixed::build`] is given.
pub proof fn lemma_read_fixed_entry(op: ReadFixed, e: Sqe)
    requires
        op.spec_prepared(Sqe::spec_zeroed(), e),
    ensures
        e.opcode == sys::IORING_OP_READ_FIXED,
        e.flags == (if op.fd is Fixed { sys::IOSQE_FIXED_FILE } else { 0u8 }),
        e.ioprio == op.ioprio,
        e.fd == (match op.fd { Target::Fd(v) => v, Target::Fixed(i) => i as i32 }),
        e.off == (op.offset as u64),
        e.addr == op.buf,
        e.len == op.len,
        e.op_flags == (op.rw_flags as u32),
        e.user_data == 0u64,
        e.buf_index == op.buf_index,
        e.personality == 0u16,
        e.splice_fd_in == 0i32,
        e.addr3 == 0u64,
        e.pad2 == 0u64,
{
    lemma_zero_or_u8(sys::IOSQE_FIXED_FILE);
}

/// What a built [`WriteFixed`] entry holds: each field of the submission entry, from
/// the operation's arguments or zero, whatever [`WriteFixed::build`] is given.
pub proof fn lemma_write_fixed_entry(op: WriteFixed, e: Sqe)
    requires
        op.spec_prepared(Sqe::spec_zeroed(), e),
    ensures
        e.opcode == sys::IORING_OP_WRITE_FIXED,
        e.flags == (if op.fd is Fixed { sys::IOSQE_FIXED_FILE } else { 0u8 }),
        e.ioprio == op.ioprio,
        e.fd == (match op.fd { Target::Fd(v) => v, Target::Fixed(i) => i as i32 }),
        e.off == (op.offset as u64),
        e.addr == op.buf,
        e.len == op.len,
        e.op_flags == (op.rw_flags as u32),
        e.user_data == 0u64,
        e.buf_index == op.buf_index,
        e.personality == 0u16,
        e.splice_fd_in == 0i32,
        e.addr3 == 0u64,
        e.pad2 == 0u64,
{
    lemma_zero_or_u8(sys::IOSQE_FIXED_FILE);
}

/// What a built [`PollAdd`] entry holds: each field of the submission entry, from
/// the operation's arguments or zero, whatever [`PollAdd::build`] is given.
pub proof fn lemma_poll_add_entry(op: PollAdd, e: Sqe)
    requires
        op.spec_prepared(Sqe::spec_zeroed(), e),
    ensures
        e.opcode == sys::IORING_OP_POLL_ADD,
        e.flags == (if op.fd is Fixed { sys::IOSQE_FIXED_FILE } else { 0u8 }),
        e.ioprio == 0u16,
        e.fd == (match op.fd { Target::Fd(v) => v, Target::Fixed(i) => i as i32 }),
        e.off == 0u64,
        e.addr == 0u64,
        e.len == 0u32,
        e.op_flags == op.flags || e.op_flags == ((op.flags << 16u32) | (op.flags >> 16u32)),
        e.user_data == 0u64,
        e.buf_index == 0u16,
        e.personality == 0u16,
        e.splice_fd_in == 0i32,
        e.addr3 == 0u64,
        e.pad2 == 0u64,
{
    lemma_zero_or_u8(sys::IOSQE_FIXED_FILE);
}

/// What a built [`PollRemove`] entry holds: each field of the submission entry, from
/// the operation's arguments or zero, whatever [`PollRemove::build`] is given.
pub proof fn lemma_poll_remove_entry(op: PollRemove, e: Sqe)
    requires
        op.spec_prepared(Sqe::spec_zeroed(), e),
    ensures
        e.opcode == sys::IORING_OP_POLL_REMOVE,
        e.flags == 0u8,
        e.ioprio == 0u16,
        e.fd == -1i32,
        e.off == 0u64,
        e.addr == op.user_data,
        e.len == 0u32,
        e.op_flags == 0u32,
        e.user_data == 0u64,
        e.buf_index == 0u16,
        e.personality == 0u16,
        e.splice_fd_in == 0i32,
        e.addr3 == 0u64,
        e.pad2 == 0u64,
{
}

/// What a built [`SyncFileRange`] entry holds: each field of the submission entry, from
/// the operation's arguments or zero, whatever [`SyncFileRange::build`] is given.
pub proof fn lemma_sync_file_range_entry(op: SyncFileRange, e: Sqe)
    requires
        op.spec_prepared(Sqe::spec_zeroed(), e),
    ensures
        e.opcode == sys::IORING_OP_SYNC_FILE_RANGE,
        e.flags == (if op.fd is Fixed { sys::IOSQE_FIXED_FILE } else { 0u8 }),
        e.ioprio == 0u16,
        e.fd == (match op.fd { Target::Fd(v) => v, Target::Fixed(i) => i as i32 }),
        e.off == (op.offset as u64),
        e.addr == 0u64,
        e.len == op.len,
        e.op_flags == op.flags,
        e.user_data == 0u64,
        e.buf_index == 0u16,
        e.personality == 0u16,
        e.splice_fd_in == 0i32,
        e.addr3 == 0u64,
        e.pad2 == 0u64,
{
    lemma_zero_or_u8(sys::IOSQE_FIXED_FILE);
}

/// What a built [`SendMsg`] entry holds: each field of the submission entry, from
/// the operation's arguments or zero, whatever [`SendMsg::build`] is given.
pub proof fn lemma_send_msg_entry(op: SendMsg, e: Sqe)
    requires
        op.spec_prepared(Sqe::spec_zeroed(), e),
    ensures
        e.opcode == sys::IORING_OP_SENDMSG,
        e.flags == (if op.fd is Fixed { sys::IOSQE_FIXED_FILE } else { 0u8 }),
        e.ioprio == op.ioprio,
        e.fd == (match op.fd { Target::Fd(v) => v, Target::Fixed(i) => i as i32 }),
        e.off == 0u64,
        e.addr == op.msg,
        e.len == 1u32,
        e.op_flags == op.flags,
        e.user_data == 0u64,
        e.buf_index == 0u16,
        e.personality == 0u16,
        e.splice_fd_in == 0i32,
        e.addr3 == 0u64,
        e.pad2 == 0u64,
{
    lemma_zero_or_u8(sys::IOSQE_FIXED_FILE);
}

/// What a built [`RecvMsg`] entry holds: each field of the submission entry, from
/// the operation's arguments or zero, whatever [`RecvMsg::build`] is given.
pub proof fn lemma_recv_msg_entry(op: RecvMsg, e: Sqe)
    requires
        op.spec_prepared(Sqe::spec_zeroed(), e),
    ensures
        e.opcode == sys::IORING_OP_RECVMSG,
        e.flags == (if op.fd is Fixed { sys::IOSQE_FIXED_FILE } else { 0u8 }),
        e.ioprio == op.ioprio,
        e.fd == (match op.fd { Target::Fd(v) => v, Target::Fixed(i) => i as i32 }),
        e.off == 0u64,
        e.addr == op.msg,
        e.len == 1u32,
        e.op_flags == op.flags,
        e.user_data == 0u64,
        e.buf_index == 0u16,
        e.personality == 0u16,
        e.splice_fd_in == 0i32,
        e.addr3 == 0u64,
        e.pad2 == 0u64,
{
    lemma_zero_or_u8(sys::IOSQE_FIXED_FILE);
}

/// What a built [`Timeout`] entry holds: each field of the submission entry, from
/// the operation's arguments or zero, whatever [`Timeout::build`] is given.
pub proof fn lemma_timeout_entry(op: Timeout, e: Sqe)
    requires
        op.spec_prepared(Sqe::spec_zeroed(), e),
    ensures
        e.opcode == sys::IORING_OP_TIMEOUT,
        e.flags == 0u8,
        e.ioprio == 0u16,
        e.fd == -1i32,
        e.off == (op.count as u64),
        e.addr == op.timespec,
        e.len == 1u32,
        e.op_flags == op.flags,
        e.user_data == 0u64,
        e.buf_index == 0u16,
        e.personality == 0u16,
        e.splice_fd_in == 0i32,
        e.addr3 == 0u64,
        e.pad2 == 0u64,
{
}

/// What a built [`TimeoutRemove`] entry holds: each field of the submission entry, from
/// the operation's arguments or zero, whatever [`TimeoutRemove::build`] is given.
pub proof fn lemma_timeout_remove_entry(op: TimeoutRemove, e: Sqe)
    requires
        op.spec_prepared(Sqe::spec_zeroed(), e),
    ensures
        e.opcode == sys::IORING_OP_TIMEOUT_REMOVE,
        e.flags == 0u8,
        e.ioprio == 0u16,
        e.fd == -1i32,
        e.off == 0u64,
        e.addr == op.user_data,
        e.len == 0u32,
        e.op_flags == op.flags,
        e.user_data == 0u64,
        e.buf_index == 0u16,
        e.personality == 0u16,
        e.splice_fd_in == 0i32,
        e.addr3 == 0u64,
        e.pad2 == 0u64,
{
}

/// What a built [`Accept`] entry holds: each field of the submission entry, from
/// the operation's arguments or zero, whatever [`Accept::build`] is given.
pub proof fn lemma_accept_entry(op: Accept, e: Sqe)
    requires
        op.spec_prepared(Sqe::spec_zeroed(), e),
    ensures
        e.opcode == sys::IORING_OP_ACCEPT,
        e.flags == (if op.fd is Fixed { sys::IOSQE_FIXED_FILE } else { 0u8 }),
        e.ioprio == 0u16,
        e.fd == (match op.fd { Target::Fd(v) => v, Target::Fixed(i) => i as i32 }),
        e.off == op.addrlen,
        e.addr == op.addr,
        e.len == 0u32,
        e.op_flags == (op.flags as u32),
        e.user_data == 0u64,
        e.buf_index == 0u16,
        e.personality == 0u16,
        e.splice_fd_in == 0i32,
        e.addr3 == 0u64,
        e.pad2 == 0u64,
{
    lemma_zero_or_u8(sys::IOSQE_FIXED_FILE);
}

/// What a built [`AsyncCancel`] entry holds: each field of the submission entry, from
/// the operation's arguments or zero, whatever [`AsyncCancel::build`] is given.
pub proof fn lemma_async_cancel_entry(op: AsyncCancel, e: Sqe)
    requires
        op.spec_prepared(Sqe::spec_zeroed(), e),
    ensures
        e.opcode == sys::IORING_OP_ASYNC_CANCEL,
        e.flags == 0u8,
        e.ioprio == 0u16,
        e.fd == -1i32,
        e.off == 0u64,
        e.addr == op.user_data,
        e.len == 0u32,
        e.op_flags == 0u32,
        e.user_data == 0u64,
        e.buf_index == 0u16,
        e.personality == 0u16,
        e.splice_fd_in == 0i32,
        e.addr3 == 0u64,
        e.pad2 == 0u64,
{
}

/// What a built [`LinkTimeout`] entry holds: each field of the submission entry, from
/// the operation's arguments or zero, whatever [`LinkTimeout::build`] is given.
pub proof fn lemma_link_timeout_entry(op: LinkTimeout, e: Sqe)
    requires
        op.spec_prepared(Sqe::spec_zeroed(), e),
    ensures
        e.opcode == sys::IORING_OP_LINK_TIMEOUT,
        e.flags == 0u8,
        e.ioprio == 0u16,
        e.fd == -1i32,
        e.off == 0u64,
        e.addr == op.timespec,
        e.len == 1u32,
        e.op_flags == op.flags,
        e.user_data == 0u64,
        e.buf_index == 0u16,
        e.personality == 0u16,
        e.splice_fd_in == 0i32,
        e.addr3 == 0u64,
        e.pad2 == 0u64,
{
}

/// What a built [`Connect`] entry holds: each field of the submission entry, from
/// the operation's arguments or zero, whatever [`Connect::build`] is given.
pub proof fn lemma_connect_entry(op: Connect, e: Sqe)
    requires
        op.spec_prepared(Sqe::spec_zeroed(), e),
    ensures
        e.opcode == sys::IORING_OP_CONNECT,
        e.flags == (if op.fd is Fixed { sys::IOSQE_FIXED_FILE } else { 0u8 }),
        e.ioprio == 0u16,
        e.fd == (match op.fd { Target::Fd(v) => v, Target::Fixed(i) => i as i32 }),
        e.off == (op.addrlen as u64),
        e.addr == op.addr,
        e.len == 0u32,
        e.op_flags == 0u32,
        e.user_data == 0u64,
        e.buf_index == 0u16,
        e.personality == 0u16,
        e.splice_fd_in == 0i32,
        e.addr3 == 0u64,
        e.pad2 == 0u64,
{
    lemma_zero_or_u8(sys::IOSQE_FIXED_FILE);
}

/// What a built [`Fallocate`] entry holds: each field of the submission entry, from
/// the operation's arguments or zero, whatever [`Fallocate::build`] is given.
pub proof fn lemma_fallocate_entry(op: Fallocate, e: Sqe)
    requires
        op.spec_prepared(Sqe::spec_zeroed(), e),
    ensures
        e.opcode == sys::IORING_OP_FALLOCATE,
        e.flags == (if op.fd is Fixed { sys::IOSQE_FIXED_FILE } else { 0u8 }),
        e.ioprio == 0u16,
        e.fd == (match op.fd { Target::Fd(v) => v, Target::Fixed(i) => i as i32 }),
        e.off == (op.offset as u64),
        e.addr == (op.len as u64),
        e.len == (op.mode as u32),
        e.op_flags == 0u32,
        e.user_data == 0u64,
        e.buf_index == 0u16,
        e.personality == 0u16,
        e.splice_fd_in == 0i32,
        e.addr3 == 0u64,
        e.pad2 == 0u64,
{
    lemma_zero_or_u8(sys::IOSQE_FIXED_FILE);
}

/// What a built [`OpenAt`] entry holds: each field of the submission entry, from
/// the operation's arguments or zero, whatever [`OpenAt::build`] is given.
pub proof fn lemma_open_at_entry(op: OpenAt, e: Sqe)
    requires
        op.spec_prepared(Sqe::spec_zeroed(), e),
    ensures
        e.opcode == sys::IORING_OP_OPENAT,
        e.flags == 0u8,
        e.ioprio == 0u16,
        e.fd == op.dirfd,
        e.off == 0u64,
        e.addr == op.pathname,
        e.len == op.mode,
        e.op_flags == (op.flags as u32),
        e.user_data == 0u64,
        e.buf_index == 0u16,
        e.personality == 0u16,
        e.splice_fd_in == 0i32,
        e.addr3 == 0u64,
        e.pad2 == 0u64,
{
}

/// What a built [`Close`] entry holds: each field of the submission entry, from
/// the operation's arguments or zero, whatever [`Close::build`] is given.
pub proof fn lemma_close_entry(op: Close, e: Sqe)
    requires
        op.spec_prepared(Sqe::spec_zeroed(), e),
    ensures
        e.opcode == sys::IORING_OP_CLOSE,
        e.flags == 0u8,
        e.ioprio == 0u16,
        e.fd == op.fd,
        e.off == 0u64,
        e.addr == 0u64,
        e.len == 0u32,
        e.op_flags == 0u32,
        e.user_data == 0u64,
        e.buf_index == 0u16,
        e.personality == 0u16,
        e.splice_fd_in == 0i32,
        e.addr3 == 0u64,
        e.pad2 == 0u64,
{
}

/// What a built [`FilesUpdate`] entry holds: each field of the submission entry, from
/// the operation's arguments or zero, whatever [`FilesUpdate::build`] is given.
pub proof fn lemma_files_update_entry(op: FilesUpdate, e: Sqe)
    requires
        op.spec_prepared(Sqe::spec_zeroed(), e),
    ensures
        e.opcode == sys::IORING_OP_FILES_UPDATE,
        e.flags == 0u8,
        e.ioprio == 0u16,
        e.fd == -1i32,
        e.off == (op.offset as u64),
        e.addr == op.fds,
        e.len == op.len,
        e.op_flags == 0u32,
        e.user_data == 0u64,
        e.buf_index == 0u16,
        e.personality == 0u16,
        e.splice_fd_in == 0i32,
        e.addr3 == 0u64,
        e.pad2 == 0u64,
{
}

/// What a built [`Statx`] entry holds: each field of the submission entry, from
/// the operation's arguments or zero, whatever [`Statx::build`] is given.
pub proof fn lemma_statx_entry(op: Statx, e: Sqe)
    requires
        op.spec_prepared(Sqe::spec_zeroed(), e),
    ensures
        e.opcode == sys::IORING_OP_STATX,
        e.flags == 0u8,
        e.ioprio == 0u16,
        e.fd == op.dirfd,
        e.off == op.statxbuf,
        e.addr == op.pathname,
        e.len == op.mask,
        e.op_flags == (op.flags as u32),
        e.user_data == 0u64,
        e.buf_index == 0u16,
        e.personality == 0u16,
        e.splice_fd_in == 0i32,
        e.addr3 == 0u64,
        e.pad2 == 0u64,
{
}

/// What a built [`Read`] entry holds: each field of the submission entry, from
/// the operation's arguments or zero, whatever [`Read::build`] is given.
pub proof fn lemma_read_entry(op: Read, e: Sqe)
    requires
        op.spec_prepared(Sqe::spec_zeroed(), e),
    ensures
        e.opcode == sys::IORING_OP_READ,
        e.flags == (if op.fd is Fixed { sys::IOSQE_FIXED_FILE } else { 0u8 }),
        e.ioprio == op.ioprio,
        e.fd == (match op.fd { Target::Fd(v) => v, Target::Fixed(i) => i as i32 }),
        e.off == (op.offset as u64),
        e.addr == op.buf,
        e.len == op.len,
        e.op_flags == (op.rw_flags as u32),
        e.user_data == 0u64,
        e.buf_index == op.buf_group,
        e.personality == 0u16,
        e.splice_fd_in == 0i32,
        e.addr3 == 0u64,
        e.pad2 == 0u64,
{
    lemma_zero_or_u8(sys::IOSQE_FIXED_FILE);
}

/// What a built [`Write`] entry holds: each field of the submission entry, from
/// the operation's arguments or zero, whatever [`Write::build`] is given.
pub proof fn lemma_write_entry(op: Write, e: Sqe)
    requires
        op.spec_prepared(Sqe::spec_zeroed(), e),
    ensures
        e.opcode == sys::IORING_OP_WRITE,
        e.flags == (if op.fd is Fixed { sys::IOSQE_FIXED_FILE } else { 0u8 }),
        e.ioprio == op.ioprio,
        e.fd == (match op.fd { Target::Fd(v) => v, Target::Fixed(i) => i as i32 }),
        e.off == (op.offset as u64),
        e.addr == op.buf,
        e.len == op.len,
        e.op_flags == (op.rw_flags as u32),
        e.user_data == 0u64,
        e.buf_index == 0u16,
        e.personality == 0u16,
        e.splice_fd_in == 0i32,
        e.addr3 == 0u64,
        e.pad2 == 0u64,
{
    lemma_zero_or_u8(sys::IOSQE_FIXED_FILE);
}

/// What a built [`Fadvise`] entry holds: each field of the submission entry, from
/// the operation's arguments or zero, whatever [`Fadvise::build`] is given.
pub proof fn lemma_fadvise_entry(op: Fadvise, e: Sqe)
    requires
        op.spec_prepared(Sqe::spec_zeroed(), e),
    ensures
        e.opcode == sys::IORING_OP_FADVISE,
        e.flags == (if op.fd is Fixed { sys::IOSQE_FIXED_FILE } else { 0u8 }),
        e.ioprio == 0u16,
        e.fd == (match op.fd { Target::Fd(v) => v, Target::Fixed(i) => i as i32 }),
        e.off == (op.offset as u64),
        e.addr == 0u64,
        e.len == (op.len as u32),
        e.op_flags == (op.advice as u32),
        e.user_data == 0u64,
        e.buf_index == 0u16,
        e.personality == 0u16,
        e.splice_fd_in == 0i32,
        e.addr3 == 0u64,
        e.pad2 == 0u64,
{
    lemma_zero_or_u8(sys::IOSQE_FIXED_FILE);
}

/// What a built [`Madvise`] entry holds: each field of the submission entry, from
/// the operation's arguments or zero, whatever [`Madvise::build`] is given.
pub proof fn lemma_madvise_entry(op: Madvise, e: Sqe)
    requires
        op.spec_prepared(Sqe::spec_zeroed(), e),
    ensures
        e.opcode == sys::IORING_OP_MADVISE,
        e.flags == 0u8,
        e.ioprio == 0u16,
        e.fd == -1i32,
        e.off == 0u64,
        e.addr == op.addr,
        e.len == (op.len as u32),
        e.op_flags == (op.advice as u32),
        e.user_data == 0u64,
        e.buf_index == 0u16,
        e.personality == 0u16,
        e.splice_fd_in == 0i32,
        e.addr3 == 0u64,
        e.pad2 == 0u64,
{
}

/// What a built [`Send`] entry holds: each field of the submission entry, from
/// the operation's arguments or zero, whatever [`Send::build`] is given.
pub proof fn lemma_send_entry(op: Send, e: Sqe)
    requires
        op.spec_prepared(Sqe::spec_zeroed(), e),
    ensures
        e.opcode == sys::IORING_OP_SEND,
        e.flags == (if op.fd is Fixed { sys::IOSQE_FIXED_FILE } else { 0u8 }),
        e.ioprio == 0u16,
        e.fd == (match op.fd { Target::Fd(v) => v, Target::Fixed(i) => i as i32 }),
        e.off == 0u64,
        e.addr == op.buf,
        e.len == op.len,
        e.op_flags == (op.flags as u32),
        e.user_data == 0u64,
        e.buf_index == 0u16,
        e.personality == 0u16,
        e.splice_fd_in == 0i32,
        e.addr3 == 0u64,
        e.pad2 == 0u64,
{
    lemma_zero_or_u8(sys::IOSQE_FIXED_FILE);
}

/// What a built [`Recv`] entry holds: each field of the submission entry, from
/// the operation's arguments or zero, whatever [`Recv::build`] is given.
pub proof fn lemma_recv_entry(op: Recv, e: Sqe)
    requires
        op.spec_prepared(Sqe::spec_zeroed(), e),
    ensures
        e.opcode == sys::IORING_OP_RECV,
        e.flags == (if op.fd is Fixed { sys::IOSQE_FIXED_FILE } else { 0u8 }),
        e.ioprio == 0u16,
        e.fd == (match op.fd { Target::Fd(v) => v, Target::Fixed(i) => i as i32 }),
        e.off == 0u64,
        e.addr == op.buf,
        e.len == op.len,
        e.op_flags == (op.flags as u32),
        e.user_data == 0u64,
        e.buf_index == op.buf_group,
        e.personality == 0u16,
        e.splice_fd_in == 0i32,
        e.addr3 == 0u64,
        e.pad2 == 0u64,
{
    lemma_zero_or_u8(sys::IOSQE_FIXED_FILE);
}

/// What a built [`OpenAt2`] entry holds: each field of the submission entry, from
/// the operation's arguments or zero, whatever [`OpenAt2::build`] is given.
pub proof fn lemma_open_at2_entry(op: OpenAt2, e: Sqe)
    requires
        op.spec_prepared(Sqe::spec_zeroed(), e),
    ensures
        e.opcode == sys::IORING_OP_OPENAT2,
        e.flags == 0u8,
        e.ioprio == 0u16,
        e.fd == op.dirfd,
        e.off == op.how,
        e.addr == op.pathname,
        e.len == 24u32,
        e.op_flags == 0u32,
        e.user_data == 0u64,
        e.buf_index == 0u16,
        e.personality == 0u16,
        e.splice_fd_in == 0i32,
        e.addr3 == 0u64,
        e.pad2 == 0u64,
{
}

/// What a built [`EpollCtl`] entry holds: each field of the submission entry, from
/// the operation's arguments or zero, whatever [`EpollCtl::build`] is given.
pub proof fn lemma_epoll_ctl_entry(op: EpollCtl, e: Sqe)
    requires
        op.spec_prepared(Sqe::spec_zeroed(), e),
    ensures
        e.opcode == sys::IORING_OP_EPOLL_CTL,
        e.flags == (if op.epfd is Fixed { sys::IOSQE_FIXED_FILE } else { 0u8 }),
        e.ioprio == 0u16,
        e.fd == (match op.epfd { Target::Fd(v) => v, Target::Fixed(i) => i as i32 }),
        e.off == (op.fd as u64),
        e.addr == op.ev,
        e.len == (op.op as u32),
        e.op_flags == 0u32,
        e.user_data == 0u64,
        e.buf_index == 0u16,
        e.personality == 0u16,
        e.splice_fd_in == 0i32,
        e.addr3 == 0u64,
        e.pad2 == 0u64,
{
    lemma_zero_or_u8(sys::IOSQE_FIXED_FILE);
}

/// What a built [`Splice`] entry holds: each field of the submission entry, from
/// the operation's arguments or zero, whatever [`Splice::build`] is given.
pub proof fn lemma_splice_entry(op: Splice, e: Sqe)
    requires
        op.spec_prepared(Sqe::spec_zeroed(), e),
    ensures
        e.opcode == sys::IORING_OP_SPLICE,
        e.flags == (if op.fd_out is Fixed { sys::IOSQE_FIXED_FILE } else { 0u8 }),
        e.ioprio == 0u16,
        e.fd == (match op.fd_out { Target::Fd(v) => v, Target::Fixed(i) => i as i32 }),
        e.off == (op.off_out as u64),
        e.addr == (op.off_in as u64),
        e.len == op.len,
        e.op_flags == (if op.fd_in is Fixed { op.flags | sys::SPLICE_F_FD_IN_FIXED } else { op.flags }),
        e.user_data == 0u64,
        e.buf_index == 0u16,
        e.personality == 0u16,
        e.splice_fd_in == (match op.fd_in { Target::Fd(v) => v, Target::Fixed(i) => i as i32 }),
        e.addr3 == 0u64,
        e.pad2 == 0u64,
{
    lemma_zero_or_u8(sys::IOSQE_FIXED_FILE);
}

/// What a built [`ProvideBuffers`] entry holds: each field of the submission entry, from
/// the operation's arguments or zero, whatever [`ProvideBuffers::build`] is given.
pub proof fn lemma_provide_buffers_entry(op: ProvideBuffers, e: Sqe)
    requires
        op.spec_prepared(Sqe::spec_zeroed(), e),
    ensures
        e.opcode == sys::IORING_OP_PROVIDE_BUFFERS,
        e.flags == 0u8,
        e.ioprio == 0u16,
        e.fd == (op.nbufs as i32),
        e.off == (op.bid as u64),
        e.addr == op.addr,
        e.len == (op.len as u32),
        e.op_flags == 0u32,
        e.user_data == 0u64,
        e.buf_index == op.bgid,
        e.personality == 0u16,
        e.splice_fd_in == 0i32,
        e.addr3 == 0u64,
        e.pad2 == 0u64,
{
}

/// What a built [`RemoveBuffers`] entry holds: each field of the submission entry, from
/// the operation's arguments or zero, whatever [`RemoveBuffers::build`] is given.
pub proof fn lemma_remove_buffers_entry(op: RemoveBuffers, e: Sqe)
    requires
        op.spec_prepared(Sqe::spec_zeroed(), e),
    ensures
        e.opcode == sys::IORING_OP_REMOVE_BUFFERS,
        e.flags == 0u8,
        e.ioprio == 0u16,
        e.fd == (op.nbufs as i32),
        e.off == 0u64,
        e.addr == 0u64,
        e.len == 0u32,
        e.op_flags == 0u32,
        e.user_data == 0u64,
        e.buf_index == op.bgid,
        e.personality == 0u16,
        e.splice_fd_in == 0i32,
        e.addr3 == 0u64,
        e.pad2 == 0u64,
{
}

/// What a built [`Tee`] entry holds: each field of the submission entry, from
/// the operation's arguments or zero, whatever [`Tee::build`] is given.
pub proof fn lemma_tee_entry(op: Tee, e: Sqe)
    requires
        op.spec_prepared(Sqe::spec_zeroed(), e),
    ensures
        e.opcode == sys::IORING_OP_TEE,
        e.flags == (if op.fd_out is Fixed { sys::IOSQE_FIXED_FILE } else { 0u8 }),
        e.ioprio == 0u16,
        e.fd == (match op.fd_out { Target::Fd(v) => v, Target::Fixed(i) => i as i32 }),
        e.off == 0u64,
        e.addr == 0u64,
        e.len == op.len,
        e.op_flags == (if op.fd_in is Fixed { op.flags | sys::SPLICE_F_FD_IN_FIXED } else { op.flags }),
        e.user_data == 0u64,
        e.buf_index == 0u16,
        e.personality == 0u16,
        e.splice_fd_in == (match op.fd_in { Target::Fd(v) => v, Target::Fixed(i) => i as i32 }),
        e.addr3 == 0u64,
        e.pad2 == 0u64,
{
    lemma_zero_or_u8(sys::IOSQE_FIXED_FILE);
}

/// What a built [`Shutdown`] entry holds: each field of the submission entry, from
/// the operation's arguments or zero, whatever [`Shutdown::build`] is given.
pub proof fn lemma_shutdown_entry(op: Shutdown, e: Sqe)
    requires
        op.spec_prepared(Sqe::spec_zeroed(), e),
    ensures
        e.opcode == sys::IORING_OP_SHUTDOWN,
        e.flags == (if op.fd is Fixed { sys::IOSQE_FIXED_FILE } else { 0u8 }),
        e.ioprio == 0u16,
        e.fd == (match op.fd { Target::Fd(v) => v, Target::Fixed(i) => i as i32 }),
        e.off == 0u64,
        e.addr == 0u64,
        e.len == (op.how as u32),
        e.op_flags == 0u32,
        e.user_data == 0u64,
        e.buf_index == 0u16,
        e.personality == 0u16,
        e.splice_fd_in == 0i32,
        e.addr3 == 0u64,
        e.pad2 == 0u64,
{
    lemma_zero_or_u8(sys::IOSQE_FIXED_FILE);
}

/// What a built [`RenameAt`] entry holds: each field of the submission entry, from
/// the operation's arguments or zero, whatever [`RenameAt::build`] is given.
pub proof fn lemma_rename_at_entry(op: RenameAt, e: Sqe)
    requires
        op.spec_prepared(Sqe::spec_zeroed(), e),
    ensures
        e.opcode == sys::IORING_OP_RENAMEAT,
        e.flags == 0u8,
        e.ioprio == 0u16,
        e.fd == op.olddirfd,
        e.off == op.newpath,
        e.addr == op.oldpath,
        e.len == (op.newdirfd as u32),
        e.op_flags == op.flags,
        e.user_data == 0u64,
        e.buf_index == 0u16,
        e.personality == 0u16,
        e.splice_fd_in == 0i32,
        e.addr3 == 0u64,
        e.pad2 == 0u64,
{
}

/// What a built [`UnlinkAt`] entry holds: each field of the submission entry, from
/// the operation's arguments or zero, whatever [`UnlinkAt::build`] is given.
pub proof fn lemma_unlink_at_entry(op: UnlinkAt, e: Sqe)
    requires
        op.spec_prepared(Sqe::spec_zeroed(), e),
    ensures
        e.opcode == sys::IORING_OP_UNLINKAT,
        e.flags == 0u8,
        e.ioprio == 0u16,
        e.fd == op.dirfd,
        e.off == 0u64,
        e.addr == op.pathname,
        e.len == 0u32,
        e.op_flags == (op.flags as u32),
        e.user_data == 0u64,
        e.buf_index == 0u16,
        e.personality == 0u16,
        e.splice_fd_in == 0i32,
        e.addr3 == 0u64,
        e.pad2 == 0u64,
{
}

/// What a built [`MkDirAt`] entry holds: each field of the submission entry, from
/// the operation's arguments or zero, whatever [`MkDirAt::build`] is given.
pub proof fn lemma_mk_dir_at_entry(op: MkDirAt, e: Sqe)
    requires
        op.spec_prepared(Sqe::spec_zeroed(), e),
    ensures
        e.opcode == sys::IORING_OP_MKDIRAT,
        e.flags == 0u8,
        e.ioprio == 0u16,
        e.fd == op.dirfd,
        e.off == 0u64,
        e.addr == op.pathname,
        e.len == op.mode,
        e.op_flags == 0u32,
        e.user_data == 0u64,
        e.buf_index == 0u16,
        e.personality == 0u16,
        e.splice_fd_in == 0i32,
        e.addr3 == 0u64,
        e.pad2 == 0u64,
{
}

/// What a built [`SymlinkAt`] entry holds: each field of the submission entry, from
/// the operation's arguments or zero, whatever [`SymlinkAt::build`] is given.
pub proof fn lemma_symlink_at_entry(op: SymlinkAt, e: Sqe)
    requires
        op.spec_prepared(Sqe::spec_zeroed(), e),
    ensures
        e.opcode == sys::IORING_OP_SYMLINKAT,
        e.flags == 0u8,
        e.ioprio == 0u16,
        e.fd == op.newdirfd,
        e.off == op.linkpath,
        e.addr == op.target,
        e.len == 0u32,
        e.op_flags == 0u32,
        e.user_data == 0u64,
        e.buf_index == 0u16,
        e.personality == 0u16,
        e.splice_fd_in == 0i32,
        e.addr3 == 0u64,
        e.pad2 == 0u64,
{
}

/// What a built [`LinkAt`] entry holds: each field of the submission entry, from
/// the operation's arguments or zero, whatever [`LinkAt::build`] is given.
pub proof fn lemma_link_at_entry(op: LinkAt, e: Sqe)
    requires
        op.spec_prepared(Sqe::spec_zeroed(), e),
    ensures
        e.opcode == sys::IORING_OP_LINKAT,
        e.flags == 0u8,
        e.ioprio == 0u16,
        e.fd == op.olddirfd,
        e.off == op.newpath,
        e.addr == op.oldpath,
        e.len == (op.newdirfd as u32),
        e.op_flags == (op.flags as u32),
        e.user_data == 0u64,
        e.buf_index == 0u16,
        e.personality == 0u16,
        e.splice_fd_in == 0i32,
        e.addr3 == 0u64,
        e.pad2 == 0u64,
{
}

} // verus!
