//! The `io_uring` library: the logic of Linux's asynchronous I/O rings.
//!
//! The submission and completion rings, the entries that travel through
//! them, the setup parameters and the registration arguments are modelled as
//! plain values here and proved correct; mapping the rings into memory and
//! issuing the system calls is left to the caller.

pub mod ring;
mod util;

pub mod buf_ring;
pub mod concurrent;
pub mod harness;
pub mod linux_io_uring;
pub mod cqueue;
pub mod opcode;
pub mod register;
pub mod squeue;
pub mod submit;
pub mod sys;
pub mod types;

pub use cqueue::CompletionQueue;
pub use register::Probe;
pub use squeue::SubmissionQueue;

use vstd::prelude::*;
use crate::sys::IoUringParams;

verus! {

/// `bit` is set in `word`.
pub open spec fn has_flag(word: u32, bit: u32) -> bool {
    word & bit != 0
}

/// Parameters for building an io_uring instance.
#[derive(Debug, Clone, Copy)]
pub struct Builder {
    dontfork: bool,
    params: IoUringParams,
}

/// The parameters that were used to construct an io_uring instance, as the
/// kernel filled them in.
#[derive(Debug, Clone, Copy)]
pub struct Parameters(IoUringParams);

impl Default for Builder {
    fn default() -> (r: Builder)
        ensures
            r.spec_dontfork() == false,
            r.spec_params() == IoUringParams::spec_zeroed(),
    {
        Builder { dontfork: false, params: IoUringParams::zeroed() }
    }
}

impl Builder {
    pub closed spec fn spec_dontfork(&self) -> bool {
        self.dontfork
    }

    pub closed spec fn spec_params(&self) -> IoUringParams {
        self.params
    }

    /// Whether the rings are to be hidden from child processes after a fork.
    pub fn is_dontfork(&self) -> (r: bool)
        ensures
            r == self.spec_dontfork(),
    {
        self.dontfork
    }

    /// The parameter block that `io_uring_setup(2)` is to receive.
    pub fn params(&self) -> (r: IoUringParams)
        ensures
            r == self.spec_params(),
    {
        self.params
    }

    /// Do not make this io_uring instance accessible by child processes after a fork.
    pub fn dontfork(&mut self) -> (r: &mut Self)
        ensures
            r.spec_dontfork() == true,
            r.spec_params() == old(self).spec_params(),
            *final(self) == *final(r),
    {
        self.dontfork = true;
        self
    }

    /// Busy-wait for I/O completion events instead of relying on interrupts.
    pub fn setup_iopoll(&mut self) -> (r: &mut Self)
        ensures
            r.spec_dontfork() == old(self).spec_dontfork(),
            r.spec_params() == (IoUringParams {
                flags: old(self).spec_params().flags | sys::IORING_SETUP_IOPOLL,
                ..old(self).spec_params()
            }),
            *final(self) == *final(r),
    {
        self.params.flags = self.params.flags | sys::IORING_SETUP_IOPOLL;
        self
    }

    /// Use a kernel thread that polls the submission queue; it goes to sleep after
    /// `idle` milliseconds without work.
    pub fn setup_sqpoll(&mut self, idle: u32) -> (r: &mut Self)
        ensures
            r.spec_dontfork() == old(self).spec_dontfork(),
            r.spec_params() == (IoUringParams {
                flags: old(self).spec_params().flags | sys::IORING_SETUP_SQPOLL,
                sq_thread_idle: idle,
                ..old(self).spec_params()
            }),
            *final(self) == *final(r),
    {
        self.params.flags = self.params.flags | sys::IORING_SETUP_SQPOLL;
        self.params.sq_thread_idle = idle;
        self
    }

    /// Bind the kernel's poll thread to the given cpu.
    pub fn setup_sqpoll_cpu(&mut self, cpu: u32) -> (r: &mut Self)
        ensures
            r.spec_dontfork() == old(self).spec_dontfork(),
            r.spec_params() == (IoUringParams {
                flags: old(self).spec_params().flags | sys::IORING_SETUP_SQ_AFF,
                sq_thread_cpu: cpu,
                ..old(self).spec_params()
            }),
            *final(self) == *final(r),
    {
        self.params.flags = self.params.flags | sys::IORING_SETUP_SQ_AFF;
        self.params.sq_thread_cpu = cpu;
        self
    }

    /// Create the completion queue with `entries` entries.
    pub fn setup_cqsize(&mut self, entries: u32) -> (r: &mut Self)
        ensures
            r.spec_dontfork() == old(self).spec_dontfork(),
            r.spec_params() == (IoUringParams {
                flags: old(self).spec_params().flags | sys::IORING_SETUP_CQSIZE,
                cq_entries: entries,
                ..old(self).spec_params()
            }),
            *final(self) == *final(r),
    {
        self.params.flags = self.params.flags | sys::IORING_SETUP_CQSIZE;
        self.params.cq_entries = entries;
        self
    }

    /// Clamp the queue sizes at their maximum instead of failing.
    pub fn setup_clamp(&mut self) -> (r: &mut Self)
        ensures
            r.spec_dontfork() == old(self).spec_dontfork(),
            r.spec_params() == (IoUringParams {
                flags: old(self).spec_params().flags | sys::IORING_SETUP_CLAMP,
                ..old(self).spec_params()
            }),
            *final(self) == *final(r),
    {
        self.params.flags = self.params.flags | sys::IORING_SETUP_CLAMP;
        self
    }

    /// Share the asynchronous worker backend of the io_uring instance `fd`.
    pub fn setup_attach_wq(&mut self, fd: i32) -> (r: &mut Self)
        ensures
            r.spec_dontfork() == old(self).spec_dontfork(),
            r.spec_params() == (IoUringParams {
                flags: old(self).spec_params().flags | sys::IORING_SETUP_ATTACH_WQ,
                wq_fd: fd as u32,
                ..old(self).spec_params()
            }),
            *final(self) == *final(r),
    {
        self.params.flags = self.params.flags | sys::IORING_SETUP_ATTACH_WQ;
        self.params.wq_fd = fd as u32;
        self
    }

    /// Start the instance with all its rings disabled.
    pub fn setup_r_disabled(&mut self) -> (r: &mut Self)
        ensures
            r.spec_dontfork() == old(self).spec_dontfork(),
            r.spec_params() == (IoUringParams {
                flags: old(self).spec_params().flags | sys::IORING_SETUP_R_DISABLED,
                ..old(self).spec_params()
            }),
            *final(self) == *final(r),
    {
        self.params.flags = self.params.flags | sys::IORING_SETUP_R_DISABLED;
        self
    }
}

impl View for Parameters {
    type V = IoUringParams;

    closed spec fn view(&self) -> IoUringParams {
        self.0
    }
}

impl Parameters {
    /// Wrap the parameter block returned by `io_uring_setup(2)`.
    pub fn new(params: IoUringParams) -> (r: Parameters)
        ensures
            r@ == params,
    {
        Parameters(params)
    }

    /// The raw parameter block.
    pub fn raw(&self) -> (r: IoUringParams)
        ensures
            r == self@,
    {
        self.0
    }

    /// Whether a kernel thread is performing queue polling.
    pub fn is_setup_sqpoll(&self) -> (r: bool)
        ensures
            r == has_flag(self@.flags, sys::IORING_SETUP_SQPOLL),
    {
        self.0.flags & sys::IORING_SETUP_SQPOLL != 0
    }

    /// Whether completions are waited for by busy-polling.
    pub fn is_setup_iopoll(&self) -> (r: bool)
        ensures
            r == has_flag(self@.flags, sys::IORING_SETUP_IOPOLL),
    {
        self.0.flags & sys::IORING_SETUP_IOPOLL != 0
    }

    /// Whether both rings are mapped with a single `mmap(2)` call.
    pub fn is_feature_single_mmap(&self) -> (r: bool)
        ensures
            r == has_flag(self@.features, sys::IORING_FEAT_SINGLE_MMAP),
    {
        self.0.features & sys::IORING_FEAT_SINGLE_MMAP != 0
    }

    /// Whether the kernel never drops completion events.
    pub fn is_feature_nodrop(&self) -> (r: bool)
        ensures
            r == has_flag(self@.features, sys::IORING_FEAT_NODROP),
    {
        self.0.features & sys::IORING_FEAT_NODROP != 0
    }

    /// Whether data for async offload has been consumed once the kernel has consumed the SQE.
    pub fn is_feature_submit_stable(&self) -> (r: bool)
        ensures
            r == has_flag(self@.features, sys::IORING_FEAT_SUBMIT_STABLE),
    {
        self.0.features & sys::IORING_FEAT_SUBMIT_STABLE != 0
    }

    /// Whether offset `-1` means the current file position for reads and writes.
    pub fn is_feature_rw_cur_pos(&self) -> (r: bool)
        ensures
            r == has_flag(self@.features, sys::IORING_FEAT_RW_CUR_POS),
    {
        self.0.features & sys::IORING_FEAT_RW_CUR_POS != 0
    }

    /// Whether requests use the credentials of the task that submitted them.
    pub fn is_feature_cur_personality(&self) -> (r: bool)
        ensures
            r == has_flag(self@.features, sys::IORING_FEAT_CUR_PERSONALITY),
    {
        self.0.features & sys::IORING_FEAT_CUR_PERSONALITY != 0
    }

    /// Whether async pollable I/O is fast.
    pub fn is_feature_fast_poll(&self) -> (r: bool)
        ensures
            r == has_flag(self@.features, sys::IORING_FEAT_FAST_POLL),
    {
        self.0.features & sys::IORING_FEAT_FAST_POLL != 0
    }

    /// Whether poll events are stored in 32 bits.
    pub fn is_feature_poll_32bits(&self) -> (r: bool)
        ensures
            r == has_flag(self@.features, sys::IORING_FEAT_POLL_32BITS),
    {
        self.0.features & sys::IORING_FEAT_POLL_32BITS != 0
    }

    /// Whether submission queue polling works with non-registered files.
    pub fn is_feature_sqpoll_nonfixed(&self) -> (r: bool)
        ensures
            r == has_flag(self@.features, sys::IORING_FEAT_SQPOLL_NONFIXED),
    {
        self.0.features & sys::IORING_FEAT_SQPOLL_NONFIXED != 0
    }

    /// Whether `io_uring_enter(2)` accepts extended arguments.
    pub fn is_feature_ext_arg(&self) -> (r: bool)
        ensures
            r == has_flag(self@.features, sys::IORING_FEAT_EXT_ARG),
    {
        self.0.features & sys::IORING_FEAT_EXT_ARG != 0
    }

    /// The number of submission queue entries allocated.
    pub fn sq_entries(&self) -> (r: u32)
        ensures
            r == self@.sq_entries,
    {
        self.0.sq_entries
    }

    /// The number of completion queue entries allocated.
    pub fn cq_entries(&self) -> (r: u32)
        ensures
            r == self@.cq_entries,
    {
        self.0.cq_entries
    }
}

/// One region of the ring file to map into memory.
#[derive(Debug, Clone, Copy)]
pub struct MmapRegion {
    pub offset: u64,
    pub len: u64,
}

/// The regions that an io_uring instance maps: the submission queue entries,
/// the submission ring and, unless both rings share one mapping, the
/// completion ring.
#[derive(Debug, Clone, Copy)]
pub struct MemoryLayout {
    pub sqe: MmapRegion,
    pub sq: MmapRegion,
    pub cq: Option<MmapRegion>,
}

/// Bytes taken by the submission ring: its header up to the index array, then one
/// `u32` per entry.
pub open spec fn sq_ring_len(p: IoUringParams) -> int {
    p.sq_off.array + p.sq_entries * sys::SQ_ARRAY_ELEMENT_SIZE
}

/// Bytes taken by the completion ring: its header up to the entries, then the entries.
pub open spec fn cq_ring_len(p: IoUringParams) -> int {
    p.cq_off.cqes + p.cq_entries * sys::CQE_SIZE
}

/// Bytes taken by the submission queue entries.
pub open spec fn sqe_array_len(p: IoUringParams) -> int {
    p.sq_entries * sys::SQE_SIZE
}

/// The mappings that an instance set up with parameters `p` needs. When the kernel
/// reports the single-mmap feature, one mapping large enough for both rings serves
/// them both.
pub fn memory_layout(p: &IoUringParams) -> (r: MemoryLayout)
    ensures
        r.sqe == (MmapRegion { offset: sys::IORING_OFF_SQES, len: sqe_array_len(*p) as u64 }),
        has_flag(p.features, sys::IORING_FEAT_SINGLE_MMAP) ==> {
            &&& r.sq == (MmapRegion {
                offset: sys::IORING_OFF_SQ_RING,
                len: if sq_ring_len(*p) >= cq_ring_len(*p) {
                    sq_ring_len(*p) as u64
                } else {
                    cq_ring_len(*p) as u64
                },
            })
            &&& r.cq is None
        },
        !has_flag(p.features, sys::IORING_FEAT_SINGLE_MMAP) ==> {
            &&& r.sq == (MmapRegion { offset: sys::IORING_OFF_SQ_RING, len: sq_ring_len(*p) as u64 })
            &&& r.cq == Some(MmapRegion { offset: sys::IORING_OFF_CQ_RING, len: cq_ring_len(*p) as u64 })
        },
{
    let sq_len: u64 = p.sq_off.array as u64 + p.sq_entries as u64 * sys::SQ_ARRAY_ELEMENT_SIZE;
    let cq_len: u64 = p.cq_off.cqes as u64 + p.cq_entries as u64 * sys::CQE_SIZE;
    let sqe_len: u64 = p.sq_entries as u64 * sys::SQE_SIZE;
    let sqe = MmapRegion { offset: sys::IORING_OFF_SQES, len: sqe_len };
    if p.features & sys::IORING_FEAT_SINGLE_MMAP != 0 {
        let len = if sq_len >= cq_len { sq_len } else { cq_len };
        MemoryLayout { sqe, sq: MmapRegion { offset: sys::IORING_OFF_SQ_RING, len }, cq: None }
    } else {
        MemoryLayout {
            sqe,
            sq: MmapRegion { offset: sys::IORING_OFF_SQ_RING, len: sq_len },
            cq: Some(MmapRegion { offset: sys::IORING_OFF_CQ_RING, len: cq_len }),
        }
    }
}

/// The sizes of an instance's mappings, in terms of the setup parameters: the
/// entries take 64 bytes each, the submission ring its header up to the index
/// array plus 4 bytes per entry, the completion ring its header up to the events
/// plus 16 bytes per event; with the single-mmap feature (bit 1 of the features)
/// one mapping as large as the larger ring serves both.
pub proof fn lemma_memory_layout_sizes(p: IoUringParams)
    ensures
        sqe_array_len(p) == p.sq_entries * 64,
        sq_ring_len(p) == p.sq_off.array + p.sq_entries * 4,
        cq_ring_len(p) == p.cq_off.cqes + p.cq_entries * 16,
        has_flag(p.features, sys::IORING_FEAT_SINGLE_MMAP) <==> p.features & 1u32 != 0,
{
}

} // verus!
