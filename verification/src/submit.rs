//! The decisions behind submitting to the kernel and registering resources
//! with it. Each function here takes the values that the ring's shared memory
//! and the setup parameters hold, and returns what to hand to
//! `io_uring_enter(2)` or `io_uring_register(2)`.

use vstd::prelude::*;
use crate::Parameters;
use crate::has_flag;
use crate::ring;
use crate::squeue;
use crate::sys::{self, FilesUpdate, RsrcRegister};
use crate::types::{CancelBuilder, Target, Timespec};

verus! {

/// The arguments of one `io_uring_enter(2)` call.
#[derive(Debug, Clone, Copy, PartialEq, Eq, Structural)]
pub struct EnterArgs {
    pub to_submit: u32,
    pub min_complete: u32,
    pub flags: u32,
}

/// What a submission is to do: call into the kernel, or nothing because the
/// kernel's polling thread is awake and will pick up the `usize` queued entries
/// by itself.
#[derive(Debug, Clone, Copy, PartialEq, Eq, Structural)]
pub enum SubmitAction {
    Enter(EnterArgs),
    Done(usize),
}

/// The number of entries between the kernel's head and the application's tail of
/// the submission ring.
pub fn sq_len(head: u32, tail: u32) -> (r: usize)
    ensures
        r == ring::distance(head, tail),
{
    proof {
        ring::lemma_wrapping_sub_is_distance(tail, head);
    }
    tail.wrapping_sub(head) as usize
}

/// Whether the submission ring flags that the kernel has published say that its
/// polling thread has gone to sleep and must be woken.
pub fn sq_need_wakeup(sq_flags: u32) -> (r: bool)
    ensures
        r == has_flag(sq_flags, squeue::spec_need_wakeup_bit()),
{
    sq_flags & squeue::sq_need_wakeup_bit() != 0
}

/// Whether the submission ring flags that the kernel has published say that the
/// completion ring has overflown.
pub fn sq_cq_overflow(sq_flags: u32) -> (r: bool)
    ensures
        r == has_flag(sq_flags, squeue::spec_cq_overflow_bit()),
{
    sq_flags & squeue::sq_cq_overflow_bit() != 0
}

/// The flags of a submission: `base`, plus `GETEVENTS` when completions are waited
/// for, must be reaped by busy-polling or are overflowing, plus `SQ_WAKEUP` when the
/// polling thread sleeps.
pub open spec fn spec_enter_flags(
    base: u32,
    want: usize,
    params: Parameters,
    cq_overflow: bool,
    need_wakeup: bool,
) -> u32 {
    let getevents = want > 0 || has_flag(params@.flags, sys::IORING_SETUP_IOPOLL) || cq_overflow;
    let wakeup = has_flag(params@.flags, sys::IORING_SETUP_SQPOLL) && need_wakeup;
    (base | (if getevents { sys::IORING_ENTER_GETEVENTS } else { 0 })) | (if wakeup {
        sys::IORING_ENTER_SQ_WAKEUP
    } else {
        0
    })
}

/// The plan of a submission of the `sq_len` queued entries that waits for `want`
/// completions: skip the system call when the kernel polls the queue, its thread is
/// awake and nothing is waited for; otherwise enter with the flags above.
pub open spec fn spec_submit_plan(
    base: u32,
    params: Parameters,
    sq_len: usize,
    want: usize,
    cq_overflow: bool,
    need_wakeup: bool,
) -> SubmitAction {
    if has_flag(params@.flags, sys::IORING_SETUP_SQPOLL) && !need_wakeup && want == 0 {
        SubmitAction::Done(sq_len)
    } else {
        SubmitAction::Enter(
            EnterArgs {
                to_submit: sq_len as u32,
                min_complete: want as u32,
                flags: spec_enter_flags(base, want, params, cq_overflow, need_wakeup),
            },
        )
    }
}

fn plan(base: u32, params: &Parameters, sq_len: usize, want: usize, cq_overflow: bool, need_wakeup: bool) -> (r:
    SubmitAction)
    ensures
        r == spec_submit_plan(base, *params, sq_len, want, cq_overflow, need_wakeup),
{
    let mut flags = base;
    if want > 0 || params.is_setup_iopoll() || cq_overflow {
        flags = flags | sys::IORING_ENTER_GETEVENTS;
    }
    if params.is_setup_sqpoll() {
        if need_wakeup {
            flags = flags | sys::IORING_ENTER_SQ_WAKEUP;
        } else if want == 0 {
            return SubmitAction::Done(sq_len);
        }
    }
    proof {
        let b = base;
        let g = sys::IORING_ENTER_GETEVENTS;
        let w = sys::IORING_ENTER_SQ_WAKEUP;
        assert(b | 0u32 == b) by (bit_vector);
        assert((b | g) | 0u32 == b | g) by (bit_vector);
    }
    SubmitAction::Enter(EnterArgs { to_submit: sq_len as u32, min_complete: want as u32, flags })
}

/// Submit the `sq_len` queued entries and wait for at least `want` completions.
/// `cq_overflow` and `need_wakeup` are the completion-overflow and wakeup flags that
/// the kernel has published in the submission ring.
pub fn submit_and_wait_plan(
    params: &Parameters,
    sq_len: usize,
    want: usize,
    cq_overflow: bool,
    need_wakeup: bool,
) -> (r: SubmitAction)
    ensures
        r == spec_submit_plan(0, *params, sq_len, want, cq_overflow, need_wakeup),
{
    plan(0, params, sq_len, want, cq_overflow, need_wakeup)
}

/// As [`submit_and_wait_plan`], for a submission that passes extended arguments
/// (a timeout or a signal mask).
pub fn submit_with_args_plan(
    params: &Parameters,
    sq_len: usize,
    want: usize,
    cq_overflow: bool,
    need_wakeup: bool,
) -> (r: SubmitAction)
    ensures
        r == spec_submit_plan(sys::IORING_ENTER_EXT_ARG, *params, sq_len, want, cq_overflow, need_wakeup),
{
    plan(sys::IORING_ENTER_EXT_ARG, params, sq_len, want, cq_overflow, need_wakeup)
}

/// What a submission asks of the kernel, in terms of its inputs. It skips the
/// system call exactly when the kernel polls the queue (`IORING_SETUP_SQPOLL`,
/// bit 2), its thread is awake and nothing is waited for, and then reports the
/// `sq_len` queued entries. Otherwise it submits all `sq_len` entries, waits for
/// exactly `want` completions, however many entries are queued, and adds to
/// `base` the flag to collect events (bit 1) when it waits, busy-polls
/// (`IORING_SETUP_IOPOLL`, bit 1) or the completion ring overflows, and the
/// flag to wake the polling thread (bit 2) when that thread sleeps.
pub proof fn lemma_submit_plan(
    base: u32,
    params: Parameters,
    sq_len: usize,
    want: usize,
    cq_overflow: bool,
    need_wakeup: bool,
)
    ensures
        ({
            let sqpoll = params@.flags & 2u32 != 0;
            let iopoll = params@.flags & 1u32 != 0;
            match spec_submit_plan(base, params, sq_len, want, cq_overflow, need_wakeup) {
                SubmitAction::Done(n) => sqpoll && !need_wakeup && want == 0 && n == sq_len,
                SubmitAction::Enter(args) => {
                    &&& !(sqpoll && !need_wakeup && want == 0)
                    &&& args.to_submit == sq_len as u32
                    &&& args.min_complete == want as u32
                    &&& args.flags == (base | (if want > 0 || iopoll || cq_overflow { 1u32 } else { 0u32 })) | (
                    if sqpoll && need_wakeup {
                        2u32
                    } else {
                        0u32
                    })
                },
            }
        }),
{
}

/// Wait for the submission queue to have free entries.
pub fn squeue_wait_args() -> (r: EnterArgs)
    ensures
        r == (EnterArgs { to_submit: 0, min_complete: 0, flags: sys::IORING_ENTER_SQ_WAIT }),
{
    EnterArgs { to_submit: 0, min_complete: 0, flags: sys::IORING_ENTER_SQ_WAIT }
}

/// The argument that registers an empty (sparse) file table of `nr` entries.
pub fn register_files_sparse_arg(nr: u32) -> (r: RsrcRegister)
    ensures
        r == (RsrcRegister { nr, flags: sys::IORING_RSRC_REGISTER_SPARSE, resv2: 0, data: 0, tags: 0 }),
{
    RsrcRegister { nr, flags: sys::IORING_RSRC_REGISTER_SPARSE, resv2: 0, data: 0, tags: 0 }
}

/// The argument that replaces registered files from index `offset` on with the
/// file descriptors at address `fds`.
pub fn register_files_update_arg(offset: u32, fds: u64) -> (r: FilesUpdate)
    ensures
        r == (FilesUpdate { offset, resv: 0, fds }),
{
    FilesUpdate { offset, resv: 0, fds }
}

/// The personality id in the kernel's answer to `IORING_REGISTER_PERSONALITY`.
pub fn personality_id(ret: i32) -> (r: u16)
    ensures
        r == ret as u16,
{
    ret as u16
}

/// The argument of a synchronous cancellation (`io_uring_sync_cancel_reg`).
#[derive(Debug, Clone, Copy, PartialEq, Eq, Structural)]
pub struct SyncCancelReg {
    pub addr: u64,
    pub fd: i32,
    pub flags: u32,
    pub timeout: Timespec,
}

/// The synchronous-cancellation argument for `builder`'s criteria, waiting at most
/// `timeout`, or forever when there is none.
pub fn register_sync_cancel_arg(timeout: Option<Timespec>, builder: &CancelBuilder) -> (r: SyncCancelReg)
    ensures
        r.addr == match builder.spec_user_data() {
            Some(u) => u,
            None => 0u64,
        },
        r.fd == match builder.spec_fd() {
            Some(Target::Fd(fd)) => fd,
            Some(Target::Fixed(idx)) => idx as i32,
            None => -1i32,
        },
        r.flags == builder.spec_flags(),
        timeout matches Some(t) ==> r.timeout == t,
        timeout is None ==> r.timeout.spec_sec() == -1 && r.timeout.spec_nsec() == -1,
{
    let timespec = match timeout {
        Some(ts) => ts,
        None => Timespec::infinite(),
    };
    let user_data = match builder.target_user_data() {
        Some(u) => u,
        None => 0,
    };
    SyncCancelReg { addr: user_data, fd: builder.to_fd(), flags: builder.flags(), timeout: timespec }
}

} // verus!
