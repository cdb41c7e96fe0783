//! RMS norm of a whole vector in one workgroup.
use vstd::prelude::*;

verus! {

/// Output length and bytes of the norm of an `x_len` vector (one workgroup).
#[derive(Clone, Copy, PartialEq, Eq, Structural, Debug)]
pub struct RmsNormOp {
    pub out_len: usize,
    pub out_bytes: usize,
    pub groups: u32,
}

pub fn dispatch(x_len: usize) -> (d: RmsNormOp)
    requires
        x_len * 4 <= usize::MAX,
    ensures
        d == (RmsNormOp { out_len: x_len, out_bytes: (x_len * 4) as usize, groups: 1 }),
{
    RmsNormOp { out_len: x_len, out_bytes: x_len * 4, groups: 1 }
}

} // verus!
