//! Small helpers shared by the other modules.

use vstd::prelude::*;

verus! {

/// The value inside `t`, which must be present.
pub(crate) fn unwrap_u32(t: Option<u32>) -> (r: u32)
    requires
        t is Some,
    ensures
        t == Some(r),
{
    match t {
        Some(v) => v,
        None => 0,
    }
}

} // verus!
