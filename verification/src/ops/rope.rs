//! RoPE on Q and K in place: rotated dimensions and grid.
use vstd::prelude::*;

verus! {

/// Rotated dimensions: the whole head when `rotary_dim` is 0, else
/// `rotary_dim` capped at `head_dim`.
pub open spec fn rotated_dims(head_dim: u32, rotary_dim: u32) -> u32 {
    if rotary_dim == 0 {
        head_dim
    } else if rotary_dim < head_dim {
        rotary_dim
    } else {
        head_dim
    }
}

/// Push constant `rotary_dim` and the grid: x over all heads, y over rotated pairs.
#[derive(Clone, Copy, PartialEq, Eq, Structural, Debug)]
pub struct RopeOp {
    pub rotary_dim: u32,
    pub groups_x: u32,
    pub groups_y: u32,
}

pub fn dispatch(head_dim: u32, rotary_dim: u32, num_q: u32, num_kv: u32) -> (d: RopeOp)
    requires
        num_q + num_kv <= u32::MAX,
    ensures
        d == (RopeOp {
            rotary_dim: rotated_dims(head_dim, rotary_dim),
            groups_x: (num_q + num_kv) as u32,
            groups_y: rotated_dims(head_dim, rotary_dim) / 2,
        }),
        d.rotary_dim <= head_dim,
        rotary_dim == 0 ==> d.rotary_dim == head_dim,
{
    let total_heads = num_q + num_kv;
    let rdim = if rotary_dim == 0 {
        head_dim
    } else if rotary_dim < head_dim {
        rotary_dim
    } else {
        head_dim
    };
    RopeOp { rotary_dim: rdim, groups_x: total_heads, groups_y: rdim / 2 }
}

} // verus!
