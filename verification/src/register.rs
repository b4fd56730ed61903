//! Some register syscall related types or parameters.

use vstd::prelude::*;
use crate::sys;

verus! {

/// One opcode's entry in a [`Probe`] (`io_uring_probe_op`).
#[derive(Debug, Default, Clone, Copy, PartialEq, Eq, Structural)]
pub struct ProbeOp {
    pub op: u8,
    pub resv: u8,
    pub flags: u16,
    pub resv2: u32,
}

/// The number of opcode entries a [`Probe`] has room for.
pub const PROBE_OPS: usize = 256;

/// Information about what `io_uring` features the kernel supports: for each
/// opcode up to `last_op`, whether it is supported. Laid out as the kernel's
/// `io_uring_probe` header ([`sys::IoUringProbe`](crate::sys::IoUringProbe))
/// followed by one entry per possible opcode.
pub struct Probe {
    last_op: u8,
    ops_len: u8,
    resv: u16,
    resv2: [u32; 3],
    ops: [ProbeOp; 256],
}

impl Probe {
    pub const COUNT: usize = 256;

    pub closed spec fn spec_last_op(&self) -> u8 {
        self.last_op
    }

    pub closed spec fn spec_ops_len(&self) -> u8 {
        self.ops_len
    }

    pub closed spec fn spec_ops(&self) -> Seq<ProbeOp> {
        self.ops@
    }

    /// The probe has one entry for each possible opcode.
    pub open spec fn wf(&self) -> bool {
        self.spec_ops().len() == PROBE_OPS
    }

    /// Opcode `opcode` is reported as supported.
    pub open spec fn spec_supported(&self, opcode: u8) -> bool {
        &&& opcode <= self.spec_last_op()
        &&& self.spec_ops()[opcode as int].flags & sys::IO_URING_OP_SUPPORTED != 0
    }

    /// Create a new probe with no features enabled.
    pub fn new() -> (r: Probe)
        ensures
            r.wf(),
            r.spec_last_op() == 0,
            r.spec_ops_len() == 0,
            forall|i: int| 0 <= i < PROBE_OPS ==> #[trigger] r.spec_ops()[i] == (ProbeOp {
                op: 0,
                resv: 0,
                flags: 0,
                resv2: 0,
            }),
    {
        let ops = [ProbeOp { op: 0, resv: 0, flags: 0, resv2: 0 }; 256];
        Probe { last_op: 0, ops_len: 0, resv: 0, resv2: [0u32; 3], ops }
    }

    /// A probe as the kernel filled it in: the last opcode it knows, the number of
    /// entries it wrote and the entries, one per possible opcode.
    pub fn from_kernel(last_op: u8, ops_len: u8, ops: [ProbeOp; 256]) -> (r: Probe)
        ensures
            r.wf(),
            r.spec_last_op() == last_op,
            r.spec_ops_len() == ops_len,
            r.spec_ops() == ops@,
    {
        Probe { last_op, ops_len, resv: 0, resv2: [0u32; 3], ops }
    }

    /// The last opcode the kernel knows of.
    pub fn last_op(&self) -> (r: u8)
        ensures
            r == self.spec_last_op(),
    {
        self.last_op
    }

    /// The entries, one per possible opcode.
    pub fn ops(&self) -> (r: &[ProbeOp])
        ensures
            r@ == self.spec_ops(),
    {
        self.ops.as_slice()
    }

    /// Get whether a specific opcode is supported.
    pub fn is_supported(&self, opcode: u8) -> (r: bool)
        requires
            self.wf(),
        ensures
            r == self.spec_supported(opcode),
    {
        if opcode <= self.last_op {
            self.ops[opcode as usize].flags & sys::IO_URING_OP_SUPPORTED != 0
        } else {
            false
        }
    }

    /// The supported opcodes, in increasing order.
    pub fn supported_ops(&self) -> (r: Vec<u8>)
        requires
            self.wf(),
        ensures
            forall|i: int| 0 <= i < r@.len() ==> self.spec_supported(#[trigger] r@[i]),
            forall|op: u8| self.spec_supported(op) ==> r@.contains(op),
            forall|i: int, j: int| 0 <= i < j < r@.len() ==> r@[i] < r@[j],
    {
        let mut out: Vec<u8> = Vec::new();
        let mut op: u16 = 0;
        while op <= self.last_op as u16
            invariant
                self.wf(),
                op <= self.spec_last_op() + 1,
                forall|i: int| 0 <= i < out@.len() ==> self.spec_supported(#[trigger] out@[i]),
                forall|i: int| 0 <= i < out@.len() ==> #[trigger] out@[i] < op,
                forall|o: u8| o < op && self.spec_supported(o) ==> out@.contains(o),
                forall|i: int, j: int| 0 <= i < j < out@.len() ==> out@[i] < out@[j],
            decreases self.spec_last_op() + 1 - op,
        {
            let code = op as u8;
            let ghost old_out = out@;
            if self.is_supported(code) {
                out.push(code);
                assert(out@[out@.len() - 1] == code);
            }
            assert forall|o: u8| o < op + 1 && self.spec_supported(o) implies out@.contains(o) by {
                if o < op {
                    let k = choose|k: int| 0 <= k < old_out.len() && old_out[k] == o;
                    assert(out@[k] == o);
                } else {
                    assert(out@[out@.len() - 1] == o);
                }
            }
            op = op + 1;
        }
        out
    }
}

impl Default for Probe {
    fn default() -> (r: Probe)
        ensures
            r.wf(),
            r.spec_last_op() == 0,
            r.spec_ops_len() == 0,
            forall|i: int| 0 <= i < PROBE_OPS ==> #[trigger] r.spec_ops()[i] == (ProbeOp {
                op: 0,
                resv: 0,
                flags: 0,
                resv2: 0,
            }),
    {
        Probe::new()
    }
}

/// Which opcodes a probe reports supported, in terms of what the kernel filled
/// in: exactly those up to and including the last opcode it knows whose entry
/// carries the supported flag. In particular the last opcode itself counts.
pub proof fn lemma_probe_supported(p: Probe, opcode: u8)
    requires
        p.wf(),
    ensures
        p.spec_supported(opcode) <==> (opcode <= p.spec_last_op() && p.spec_ops()[opcode as int].flags & 1u16
            != 0),
        p.spec_ops()[p.spec_last_op() as int].flags & 1u16 != 0 ==> p.spec_supported(p.spec_last_op()),
{
}

/// An allowed feature of io_uring, for a ring's allowlist.
#[derive(Debug, Clone, Copy, PartialEq, Eq, Structural)]
pub struct Restriction {
    /// Which kind of restriction (`IORING_RESTRICTION_*`).
    pub opcode: u16,
    /// The register opcode, SQE opcode or SQE flags it concerns.
    pub value: u8,
}

impl Restriction {
    /// Allow an `io_uring_register` opcode.
    pub fn register_op(op: u8) -> (r: Restriction)
        ensures
            r == (Restriction { opcode: sys::IORING_RESTRICTION_REGISTER_OP, value: op }),
    {
        Restriction { opcode: sys::IORING_RESTRICTION_REGISTER_OP, value: op }
    }

    /// Allow a submission queue event opcode.
    pub fn sqe_op(op: u8) -> (r: Restriction)
        ensures
            r == (Restriction { opcode: sys::IORING_RESTRICTION_SQE_OP, value: op }),
    {
        Restriction { opcode: sys::IORING_RESTRICTION_SQE_OP, value: op }
    }

    /// Allow the given submission queue event flags.
    pub fn sqe_flags_allowed(flags: u8) -> (r: Restriction)
        ensures
            r == (Restriction { opcode: sys::IORING_RESTRICTION_SQE_FLAGS_ALLOWED, value: flags }),
    {
        Restriction { opcode: sys::IORING_RESTRICTION_SQE_FLAGS_ALLOWED, value: flags }
    }

    /// Require the given submission queue event flags on every submission.
    pub fn sqe_flags_required(flags: u8) -> (r: Restriction)
        ensures
            r == (Restriction { opcode: sys::IORING_RESTRICTION_SQE_FLAGS_REQUIRED, value: flags }),
    {
        Restriction { opcode: sys::IORING_RESTRICTION_SQE_FLAGS_REQUIRED, value: flags }
    }
}

/// A file descriptor value that `register_files_update` skips, leaving the
/// file at that index untouched.
pub const SKIP_FILE: i32 = sys::IORING_REGISTER_FILES_SKIP;

} // verus!
