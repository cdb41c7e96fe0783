//! Q4_K matvec dispatch geometry.
use vstd::prelude::*;
use crate::geometry::{ceil_div, groups_of_256};

verus! {

/// `out[n] = W[n x k] . x`: output length in f32 values and bytes, and
/// workgroups of 256 rows.
#[derive(Clone, Copy, PartialEq, Eq, Structural, Debug)]
pub struct Q4kDispatch {
    pub n: u32,
    pub k: u32,
    pub out_len: usize,
    pub out_bytes: usize,
    pub groups: u32,
}

pub fn dispatch(n: u32, k: u32) -> (d: Q4kDispatch)
    requires
        n + 255 <= u32::MAX,
        n * 4 <= usize::MAX,
    ensures
        d == (Q4kDispatch {
            n,
            k,
            out_len: n as usize,
            out_bytes: (n * 4) as usize,
            groups: ceil_div(n as int, 256) as u32,
        }),
        d.groups * 256 >= n,
{
    proof {
        crate::geometry::lemma_ceil_div_covers(n as int, 256);
    }
    let out_len = n as usize;
    Q4kDispatch { n, k, out_len, out_bytes: out_len * 4, groups: groups_of_256(n) }
}

} // verus!
