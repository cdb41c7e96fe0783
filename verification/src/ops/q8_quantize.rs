//! Q8 quantisation dispatch geometry: `k` values in blocks of 32, one int8
//! per value and one f32 scale per block.
use vstd::prelude::*;

verus! {

#[derive(Clone, Copy, PartialEq, Eq, Structural, Debug)]
pub struct Q8QuantizeDispatch {
    pub k: u32,
    pub num_blocks: usize,
    pub q8_len: usize,
    pub scales_len: usize,
    pub scales_bytes: usize,
    pub groups: u32,
}

pub fn dispatch(k: u32) -> (d: Q8QuantizeDispatch)
    requires
        (k / 32) * 4 <= usize::MAX,
    ensures
        d == (Q8QuantizeDispatch {
            k,
            num_blocks: (k / 32) as usize,
            q8_len: k as usize,
            scales_len: (k / 32) as usize,
            scales_bytes: ((k / 32) * 4) as usize,
            groups: k / 32,
        }),
{
    let num_blocks = (k / 32) as usize;
    Q8QuantizeDispatch {
        k,
        num_blocks,
        q8_len: k as usize,
        scales_len: num_blocks,
        scales_bytes: num_blocks * 4,
        groups: num_blocks as u32,
    }
}

} // verus!
