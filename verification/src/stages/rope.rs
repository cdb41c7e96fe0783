//! Rotary position embedding of Q and K, in place, per head per position;
//! partial rotation (`rotary_dim < head_dim`) is supported.
use vstd::prelude::*;
use crate::geometry::{Span, ceil_div, div_ceil_u32, position_span_usize, span_at};
use crate::stages::qk_norm::head_windows_fit;

verus! {

/// Mode push constant of the RoPE shader for batched Q+K rotation.
pub const ROPE_MODE_BATCHED_QK: u32 = 1;

/// Rotated dimensions: all of `head_dim` when `rotary_dim` is 0.
pub open spec fn effective_rotary_dim(head_dim: usize, rotary_dim: usize) -> u32 {
    if rotary_dim == 0 { head_dim as u32 } else { rotary_dim as u32 }
}

/// The windows rotated at one position and its position push constant.
#[derive(Clone, Copy, PartialEq, Eq, Structural, Debug)]
pub struct RopePosition {
    pub pos: u32,
    pub q: Span,
    pub k: Span,
}

/// Plan of the stage: push constants shared by all positions (`rotary_dim`
/// is passed as given; the shader reads 0 as "rotate the whole head"), the
/// workgroup grid (32 x 8 threads each, x over rotated pairs, y over heads),
/// and one dispatch per position.
pub struct RopePlan {
    pub head_dim: u32,
    pub rotary_dim: u32,
    pub num_q: u32,
    pub num_kv: u32,
    pub mode: u32,
    pub groups_x: u32,
    pub groups_y: u32,
    pub positions: Vec<RopePosition>,
}

/// `plan` rotates `rotated_dims` dimensions of every head: its push
/// constants other than `rotary_dim`, its grid and its per-position windows.
pub open spec fn rope_geometry(
    plan: RopePlan,
    seq_len: usize,
    num_q_heads: usize,
    num_kv_heads: usize,
    head_dim: usize,
    rotated_dims: u32,
) -> bool {
    &&& plan.head_dim == head_dim as u32
    &&& plan.num_q == num_q_heads as u32
    &&& plan.num_kv == num_kv_heads as u32
    &&& plan.mode == ROPE_MODE_BATCHED_QK
    &&& plan.groups_x == ceil_div((rotated_dims / 2) as int, 32)
    &&& plan.groups_y == ceil_div(((num_q_heads + num_kv_heads) as u32) as int, 8)
    &&& plan.positions@.len() == seq_len
    &&& forall|p: int|
        0 <= p < seq_len ==> #[trigger] plan.positions@[p] == (RopePosition {
            pos: p as u32,
            q: span_at(p, num_q_heads * head_dim, num_q_heads * head_dim),
            k: span_at(p, num_kv_heads * head_dim, num_kv_heads * head_dim),
        })
}

/// `plan` is the plan of the stage over `seq_len` positions.
pub open spec fn spec_rope_plan(
    plan: RopePlan,
    seq_len: usize,
    num_q_heads: usize,
    num_kv_heads: usize,
    head_dim: usize,
    rotary_dim: usize,
) -> bool {
    &&& plan.rotary_dim == rotary_dim as u32
    &&& rope_geometry(plan, seq_len, num_q_heads, num_kv_heads, head_dim, effective_rotary_dim(head_dim, rotary_dim))
}

/// Apply RoPE to Q and K per head per position.
pub fn encode(seq_len: usize, num_q_heads: usize, num_kv_heads: usize, head_dim: usize, rotary_dim: usize) -> (plan: RopePlan)
    requires
        num_q_heads + num_kv_heads <= usize::MAX,
        head_windows_fit(seq_len, num_q_heads * head_dim),
        head_windows_fit(seq_len, num_kv_heads * head_dim),
    ensures
        spec_rope_plan(plan, seq_len, num_q_heads, num_kv_heads, head_dim, rotary_dim),
{
    let rdim_effective = if rotary_dim == 0 { head_dim as u32 } else { rotary_dim as u32 };
    let hdim = rdim_effective / 2;
    let total_heads = (num_q_heads + num_kv_heads) as u32;
    let q_elems = num_q_heads * head_dim;
    let k_elems = num_kv_heads * head_dim;
    let mut positions: Vec<RopePosition> = Vec::new();
    let mut pos: usize = 0;
    while pos < seq_len
        invariant
            pos <= seq_len,
            positions@.len() == pos,
            q_elems == num_q_heads * head_dim,
            k_elems == num_kv_heads * head_dim,
            head_windows_fit(seq_len, q_elems as int),
            head_windows_fit(seq_len, k_elems as int),
            forall|p: int|
                0 <= p < pos ==> #[trigger] positions@[p] == (RopePosition {
                    pos: p as u32,
                    q: span_at(p, q_elems as int, q_elems as int),
                    k: span_at(p, k_elems as int, k_elems as int),
                }),
        decreases seq_len - pos,
    {
        let q = position_span_usize(pos, seq_len, q_elems, q_elems);
        let k = position_span_usize(pos, seq_len, k_elems, k_elems);
        positions.push(RopePosition { pos: pos as u32, q, k });
        pos = pos + 1;
    }
    RopePlan {
        head_dim: head_dim as u32,
        rotary_dim: rotary_dim as u32,
        num_q: num_q_heads as u32,
        num_kv: num_kv_heads as u32,
        mode: ROPE_MODE_BATCHED_QK,
        groups_x: div_ceil_u32(hdim, 32),
        groups_y: div_ceil_u32(total_heads, 8),
        positions,
    }
}

/// A rotary width of 0 rotates the whole head: the plan with `rotary_dim ==
/// 0` rotates the same pairs over the same grid and the same per-position
/// windows as the plan with `rotary_dim == head_dim`; only the push constant
/// differs (0, which the shader reads as the whole head).
pub proof fn lemma_zero_rotary_dim_rotates_whole_head(
    zero: RopePlan,
    full: RopePlan,
    seq_len: usize,
    num_q_heads: usize,
    num_kv_heads: usize,
    head_dim: usize,
)
    requires
        spec_rope_plan(zero, seq_len, num_q_heads, num_kv_heads, head_dim, 0),
        spec_rope_plan(full, seq_len, num_q_heads, num_kv_heads, head_dim, head_dim),
    ensures
        effective_rotary_dim(head_dim, 0) == effective_rotary_dim(head_dim, head_dim),
        zero.groups_x == full.groups_x,
        zero.groups_y == full.groups_y,
        zero.positions@ == full.positions@,
        zero.head_dim == full.head_dim,
        zero.num_q == full.num_q,
        zero.num_kv == full.num_kv,
        zero.mode == full.mode,
        zero.rotary_dim == 0,
{
    assert(zero.positions@ =~= full.positions@);
}

/// For every shape, a plan is the stage's plan with `rotary_dim == 0`
/// exactly when it carries the push constant 0 and rotates the whole head:
/// the grid and windows of the plan with `rotary_dim == head_dim`.
pub proof fn lemma_zero_rotary_dim_plan_is_whole_head(
    plan: RopePlan,
    seq_len: usize,
    num_q_heads: usize,
    num_kv_heads: usize,
    head_dim: usize,
)
    ensures
        effective_rotary_dim(head_dim, 0) == effective_rotary_dim(head_dim, head_dim),
        spec_rope_plan(plan, seq_len, num_q_heads, num_kv_heads, head_dim, 0) <==> {
            &&& plan.rotary_dim == 0
            &&& rope_geometry(
                plan,
                seq_len,
                num_q_heads,
                num_kv_heads,
                head_dim,
                effective_rotary_dim(head_dim, head_dim),
            )
        },
{
}

} // verus!
