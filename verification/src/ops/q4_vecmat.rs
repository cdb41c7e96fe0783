//! Q4_0 vecmat (`x . W`) dispatch geometry.
use vstd::prelude::*;

verus! {

/// `out[k] = x[n] . W[n x k]`: push constants `n`, `k` (truncated to `u32`),
/// output length and bytes, and workgroups: one thread per output column,
/// `k / 256 + 1` workgroups of 256.
#[derive(Clone, Copy, PartialEq, Eq, Structural, Debug)]
pub struct VecmatDispatch {
    pub n: u32,
    pub k: u32,
    pub out_len: usize,
    pub out_bytes: usize,
    pub groups: u32,
}

pub fn dispatch(n: usize, k: usize) -> (d: VecmatDispatch)
    requires
        k * 4 <= usize::MAX,
    ensures
        d == (VecmatDispatch {
            n: n as u32,
            k: k as u32,
            out_len: k,
            out_bytes: (k * 4) as usize,
            groups: ((k as u32) / 256 + 1) as u32,
        }),
        d.groups * 256 > d.k,
{
    let kk = k as u32;
    VecmatDispatch { n: n as u32, k: kk, out_len: k, out_bytes: k * 4, groups: kk / 256 + 1 }
}

} // verus!
