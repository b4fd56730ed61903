//! The io_uring kernel interface: constants and the parameter block that
//! `io_uring_setup(2)` fills in, as plain values.

use vstd::prelude::*;

verus! {

pub const IORING_SETUP_IOPOLL: u32 = 1;
pub const IORING_SETUP_SQPOLL: u32 = 2;
pub const IORING_SETUP_SQ_AFF: u32 = 4;
pub const IORING_SETUP_CQSIZE: u32 = 8;
pub const IORING_SETUP_CLAMP: u32 = 16;
pub const IORING_SETUP_ATTACH_WQ: u32 = 32;
pub const IORING_SETUP_R_DISABLED: u32 = 64;

pub const IORING_FEAT_SINGLE_MMAP: u32 = 1;
pub const IORING_FEAT_NODROP: u32 = 2;
pub const IORING_FEAT_SUBMIT_STABLE: u32 = 4;
pub const IORING_FEAT_RW_CUR_POS: u32 = 8;
pub const IORING_FEAT_CUR_PERSONALITY: u32 = 16;
pub const IORING_FEAT_FAST_POLL: u32 = 32;
pub const IORING_FEAT_POLL_32BITS: u32 = 64;
pub const IORING_FEAT_SQPOLL_NONFIXED: u32 = 128;
pub const IORING_FEAT_EXT_ARG: u32 = 256;

pub const IORING_OFF_SQ_RING: u64 = 0;
pub const IORING_OFF_CQ_RING: u64 = 0x8000000;
pub const IORING_OFF_SQES: u64 = 0x10000000;

pub const IORING_ENTER_GETEVENTS: u32 = 1;
pub const IORING_ENTER_SQ_WAKEUP: u32 = 2;
pub const IORING_ENTER_SQ_WAIT: u32 = 4;
pub const IORING_ENTER_EXT_ARG: u32 = 8;

pub const IORING_CQ_EVENTFD_DISABLED: u32 = 1;

pub const IORING_CQE_F_BUFFER: u32 = 1;
pub const IORING_CQE_BUFFER_SHIFT: u32 = 16;

pub const IORING_FSYNC_DATASYNC: u32 = 1;

pub const IORING_TIMEOUT_ABS: u32 = 1;
pub const IORING_TIMEOUT_BOOTTIME: u32 = 4;
pub const IORING_TIMEOUT_REALTIME: u32 = 8;
pub const IORING_LINK_TIMEOUT_UPDATE: u32 = 16;
pub const IORING_TIMEOUT_ETIME_SUCCESS: u32 = 32;

pub const IORING_ASYNC_CANCEL_ALL: u32 = 1;
pub const IORING_ASYNC_CANCEL_FD: u32 = 2;
pub const IORING_ASYNC_CANCEL_ANY: u32 = 4;
pub const IORING_ASYNC_CANCEL_FD_FIXED: u32 = 8;

/// The kernel's "allocate a slot for me" file index (`-1` as a `u32`).
pub const IORING_FILE_INDEX_ALLOC: u32 = 0xffff_ffff;

pub const IORING_RESTRICTION_REGISTER_OP: u16 = 0;
pub const IORING_RESTRICTION_SQE_OP: u16 = 1;
pub const IORING_RESTRICTION_SQE_FLAGS_ALLOWED: u16 = 2;
pub const IORING_RESTRICTION_SQE_FLAGS_REQUIRED: u16 = 3;

pub const IO_URING_OP_SUPPORTED: u16 = 1;

pub const IORING_REGISTER_FILES_SKIP: i32 = -2;
pub const IORING_RSRC_REGISTER_SPARSE: u32 = 1;

pub const IORING_REGISTER_BUFFERS: u32 = 0;
pub const IORING_UNREGISTER_BUFFERS: u32 = 1;
pub const IORING_REGISTER_FILES: u32 = 2;
pub const IORING_UNREGISTER_FILES: u32 = 3;
pub const IORING_REGISTER_EVENTFD: u32 = 4;
pub const IORING_UNREGISTER_EVENTFD: u32 = 5;
pub const IORING_REGISTER_FILES_UPDATE: u32 = 6;
pub const IORING_REGISTER_EVENTFD_ASYNC: u32 = 7;
pub const IORING_REGISTER_PROBE: u32 = 8;
pub const IORING_REGISTER_PERSONALITY: u32 = 9;
pub const IORING_UNREGISTER_PERSONALITY: u32 = 10;
pub const IORING_REGISTER_RESTRICTIONS: u32 = 11;
pub const IORING_REGISTER_ENABLE_RINGS: u32 = 12;
pub const IORING_REGISTER_FILES2: u32 = 13;
pub const IORING_REGISTER_IOWQ_AFF: u32 = 17;
pub const IORING_UNREGISTER_IOWQ_AFF: u32 = 18;
pub const IORING_REGISTER_IOWQ_MAX_WORKERS: u32 = 19;
pub const IORING_REGISTER_PBUF_RING: u32 = 22;
pub const IORING_UNREGISTER_PBUF_RING: u32 = 23;
pub const IORING_REGISTER_SYNC_CANCEL: u32 = 24;

pub const IORING_OP_NOP: u8 = 0;
pub const IORING_OP_READV: u8 = 1;
pub const IORING_OP_WRITEV: u8 = 2;
pub const IORING_OP_FSYNC: u8 = 3;
pub const IORING_OP_READ_FIXED: u8 = 4;
pub const IORING_OP_WRITE_FIXED: u8 = 5;
pub const IORING_OP_POLL_ADD: u8 = 6;
pub const IORING_OP_POLL_REMOVE: u8 = 7;
pub const IORING_OP_SYNC_FILE_RANGE: u8 = 8;
pub const IORING_OP_SENDMSG: u8 = 9;
pub const IORING_OP_RECVMSG: u8 = 10;
pub const IORING_OP_TIMEOUT: u8 = 11;
pub const IORING_OP_TIMEOUT_REMOVE: u8 = 12;
pub const IORING_OP_ACCEPT: u8 = 13;
pub const IORING_OP_ASYNC_CANCEL: u8 = 14;
pub const IORING_OP_LINK_TIMEOUT: u8 = 15;
pub const IORING_OP_CONNECT: u8 = 16;
pub const IORING_OP_FALLOCATE: u8 = 17;
pub const IORING_OP_OPENAT: u8 = 18;
pub const IORING_OP_CLOSE: u8 = 19;
pub const IORING_OP_FILES_UPDATE: u8 = 20;
pub const IORING_OP_STATX: u8 = 21;
pub const IORING_OP_READ: u8 = 22;
pub const IORING_OP_WRITE: u8 = 23;
pub const IORING_OP_FADVISE: u8 = 24;
pub const IORING_OP_MADVISE: u8 = 25;
pub const IORING_OP_SEND: u8 = 26;
pub const IORING_OP_RECV: u8 = 27;
pub const IORING_OP_OPENAT2: u8 = 28;
pub const IORING_OP_EPOLL_CTL: u8 = 29;
pub const IORING_OP_SPLICE: u8 = 30;
pub const IORING_OP_PROVIDE_BUFFERS: u8 = 31;
pub const IORING_OP_REMOVE_BUFFERS: u8 = 32;
pub const IORING_OP_TEE: u8 = 33;
pub const IORING_OP_SHUTDOWN: u8 = 34;
pub const IORING_OP_RENAMEAT: u8 = 35;
pub const IORING_OP_UNLINKAT: u8 = 36;
pub const IORING_OP_MKDIRAT: u8 = 37;
pub const IORING_OP_SYMLINKAT: u8 = 38;
pub const IORING_OP_LINKAT: u8 = 39;

/// `splice` and `tee`: the input descriptor is a registered file index.
pub const SPLICE_F_FD_IN_FIXED: u32 = 0x8000_0000;

/// Use a registered file index rather than a file descriptor.
pub const IOSQE_FIXED_FILE: u8 = 1;
/// Start this entry only once all earlier ones have completed.
pub const IOSQE_IO_DRAIN: u8 = 2;
/// Link this entry with the next one.
pub const IOSQE_IO_LINK: u8 = 4;
/// Like `IOSQE_IO_LINK`, but the chain survives the failure of this entry.
pub const IOSQE_IO_HARDLINK: u8 = 8;
/// Always issue this entry asynchronously.
pub const IOSQE_ASYNC: u8 = 16;
/// Let the kernel select a buffer from a provided group.
pub const IOSQE_BUFFER_SELECT: u8 = 32;
/// Post no completion event when this entry succeeds.
pub const IOSQE_CQE_SKIP_SUCCESS: u8 = 64;

/// Size in bytes of a submission queue entry.
pub const SQE_SIZE: u64 = 64;
/// Size in bytes of a completion queue entry.
pub const CQE_SIZE: u64 = 16;
/// Size in bytes of one element of the submission queue's index array.
pub const SQ_ARRAY_ELEMENT_SIZE: u64 = 4;
/// Size in bytes of the `io_uring_recvmsg_out` header that precedes multishot
/// `recvmsg` data.
pub const RECVMSG_OUT_SIZE: usize = 16;

/// Offsets of the submission ring's fields in its mapping.
#[derive(Debug, Clone, Copy)]
pub struct SqringOffsets {
    pub head: u32,
    pub tail: u32,
    pub ring_mask: u32,
    pub ring_entries: u32,
    pub flags: u32,
    pub dropped: u32,
    pub array: u32,
    pub user_addr: u64,
}

/// Offsets of the completion ring's fields in its mapping.
#[derive(Debug, Clone, Copy)]
pub struct CqringOffsets {
    pub head: u32,
    pub tail: u32,
    pub ring_mask: u32,
    pub ring_entries: u32,
    pub overflow: u32,
    pub cqes: u32,
    pub flags: u32,
    pub user_addr: u64,
}

/// The header of the kernel's `io_uring_probe`, which the opcode entries follow.
#[derive(Debug, Default, Clone, Copy)]
pub struct IoUringProbe {
    pub last_op: u8,
    pub ops_len: u8,
    pub resv: u16,
    pub resv2: [u32; 3],
}

/// The parameter block passed to and filled in by `io_uring_setup(2)`.
#[derive(Debug, Clone, Copy)]
pub struct IoUringParams {
    pub sq_entries: u32,
    pub cq_entries: u32,
    pub flags: u32,
    pub sq_thread_cpu: u32,
    pub sq_thread_idle: u32,
    pub features: u32,
    pub wq_fd: u32,
    pub sq_off: SqringOffsets,
    pub cq_off: CqringOffsets,
}

impl IoUringParams {
    /// An all-zero parameter block.
    pub fn zeroed() -> (r: IoUringParams)
        ensures
            r == IoUringParams::spec_zeroed(),
    {
        IoUringParams {
            sq_entries: 0,
            cq_entries: 0,
            flags: 0,
            sq_thread_cpu: 0,
            sq_thread_idle: 0,
            features: 0,
            wq_fd: 0,
            sq_off: SqringOffsets {
                head: 0,
                tail: 0,
                ring_mask: 0,
                ring_entries: 0,
                flags: 0,
                dropped: 0,
                array: 0,
                user_addr: 0,
            },
            cq_off: CqringOffsets {
                head: 0,
                tail: 0,
                ring_mask: 0,
                ring_entries: 0,
                overflow: 0,
                cqes: 0,
                flags: 0,
                user_addr: 0,
            },
        }
    }

    pub open spec fn spec_zeroed() -> IoUringParams {
        IoUringParams {
            sq_entries: 0,
            cq_entries: 0,
            flags: 0,
            sq_thread_cpu: 0,
            sq_thread_idle: 0,
            features: 0,
            wq_fd: 0,
            sq_off: SqringOffsets {
                head: 0,
                tail: 0,
                ring_mask: 0,
                ring_entries: 0,
                flags: 0,
                dropped: 0,
                array: 0,
                user_addr: 0,
            },
            cq_off: CqringOffsets {
                head: 0,
                tail: 0,
                ring_mask: 0,
                ring_entries: 0,
                overflow: 0,
                cqes: 0,
                flags: 0,
                user_addr: 0,
            },
        }
    }
}

impl Default for IoUringParams {
    fn default() -> (r: IoUringParams)
        ensures
            r == IoUringParams::spec_zeroed(),
    {
        IoUringParams::zeroed()
    }
}

/// A submission queue entry (`io_uring_sqe`). Fields that the kernel
/// interface overlays in a union appear once, under the name of their
/// widest member.
#[derive(Debug, Clone, Copy)]
pub struct Sqe {
    pub opcode: u8,
    pub flags: u8,
    pub ioprio: u16,
    pub fd: i32,
    /// `off` / `addr2`.
    pub off: u64,
    /// `addr` / `splice_off_in`.
    pub addr: u64,
    pub len: u32,
    /// `rw_flags`, `fsync_flags`, `poll32_events`, `timeout_flags`, ... .
    pub op_flags: u32,
    pub user_data: u64,
    /// `buf_index` / `buf_group`.
    pub buf_index: u16,
    pub personality: u16,
    /// `splice_fd_in` / `file_index`.
    pub splice_fd_in: i32,
    pub addr3: u64,
    /// Reserved padding up to the entry's 64 bytes.
    pub pad2: u64,
}

impl Sqe {
    pub open spec fn spec_zeroed() -> Sqe {
        Sqe {
            opcode: 0,
            flags: 0,
            ioprio: 0,
            fd: 0,
            off: 0,
            addr: 0,
            len: 0,
            op_flags: 0,
            user_data: 0,
            buf_index: 0,
            personality: 0,
            splice_fd_in: 0,
            addr3: 0,
            pad2: 0,
        }
    }

    /// An all-zero entry.
    pub fn zeroed() -> (r: Sqe)
        ensures
            r == Sqe::spec_zeroed(),
    {
        Sqe {
            opcode: 0,
            flags: 0,
            ioprio: 0,
            fd: 0,
            off: 0,
            addr: 0,
            len: 0,
            op_flags: 0,
            user_data: 0,
            buf_index: 0,
            personality: 0,
            splice_fd_in: 0,
            addr3: 0,
            pad2: 0,
        }
    }
}

/// Argument of `IORING_REGISTER_PBUF_RING` and `IORING_UNREGISTER_PBUF_RING`
/// (`io_uring_buf_reg`).
#[derive(Debug, Clone, Copy, PartialEq, Eq, Structural)]
pub struct BufReg {
    pub ring_addr: u64,
    pub ring_entries: u32,
    pub bgid: u16,
}

/// Argument of `IORING_REGISTER_FILES2` (`io_uring_rsrc_register`); the
/// data and tags arrays are given by address.
#[derive(Debug, Clone, Copy, PartialEq, Eq, Structural)]
pub struct RsrcRegister {
    pub nr: u32,
    pub flags: u32,
    pub resv2: u64,
    pub data: u64,
    pub tags: u64,
}

/// Argument of `IORING_REGISTER_FILES_UPDATE` (`io_uring_files_update`); the
/// file descriptors are given by address.
#[derive(Debug, Clone, Copy, PartialEq, Eq, Structural)]
pub struct FilesUpdate {
    pub offset: u32,
    pub resv: u32,
    pub fds: u64,
}

/// A completion queue entry (`io_uring_cqe`).
#[derive(Debug, Clone, Copy)]
pub struct Cqe {
    pub user_data: u64,
    pub res: i32,
    pub flags: u32,
}

} // verus!
