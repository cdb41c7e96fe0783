//! QK-norm and V-norm: per-head RMS norm applied inside attention, in place,
//! one dispatch per position with one workgroup per head.
use vstd::prelude::*;
use crate::geometry::{Span, offsets_fit_usize, position_span_usize, span_at, spans_fit};

verus! {

/// Workgroups per head of the cooperative head-norm reduction: the shader
/// loops over `head_dim` inside a single workgroup.
pub fn _tg_width(_head_dim: usize) -> (w: u32)
    ensures
        w == 1,
{
    1
}

/// Whether the per-position windows of `count` positions with `elems`
/// values each can be addressed.
pub open spec fn head_windows_fit(count: usize, elems: int) -> bool {
    &&& elems <= usize::MAX
    &&& offsets_fit_usize(count as int, elems)
    &&& spans_fit(count as int, elems, elems)
}

/// The Q and K windows normed at one position.
#[derive(Clone, Copy, PartialEq, Eq, Structural, Debug)]
pub struct QkNormPosition {
    pub q: Span,
    pub k: Span,
}

/// Plan of `encode_qk_norm`: per position, norm `q[q]` with the q-norm weight
/// over `q_heads` workgroups, then `k[k]` with the k-norm weight over
/// `k_heads` workgroups; push constants `head_dim` and the head count.
pub struct QkNormPlan {
    pub head_dim: u32,
    pub q_heads: u32,
    pub k_heads: u32,
    pub positions: Vec<QkNormPosition>,
}

/// Per-head RMS norm on Q and K (pre-RoPE, Gemma 3 / Gemma 4).
pub fn encode_qk_norm(seq_len: usize, num_q_heads: usize, num_kv_heads: usize, head_dim: usize) -> (plan: QkNormPlan)
    requires
        head_windows_fit(seq_len, num_q_heads * head_dim),
        head_windows_fit(seq_len, num_kv_heads * head_dim),
    ensures
        plan.head_dim == head_dim as u32,
        plan.q_heads == num_q_heads as u32,
        plan.k_heads == num_kv_heads as u32,
        plan.positions@.len() == seq_len,
        forall|p: int|
            0 <= p < seq_len ==> #[trigger] plan.positions@[p] == (QkNormPosition {
                q: span_at(p, num_q_heads * head_dim, num_q_heads * head_dim),
                k: span_at(p, num_kv_heads * head_dim, num_kv_heads * head_dim),
            }),
{
    let q_elems = num_q_heads * head_dim;
    let kv_elems = num_kv_heads * head_dim;
    let mut positions: Vec<QkNormPosition> = Vec::new();
    let mut pos: usize = 0;
    while pos < seq_len
        invariant
            pos <= seq_len,
            positions@.len() == pos,
            q_elems == num_q_heads * head_dim,
            kv_elems == num_kv_heads * head_dim,
            head_windows_fit(seq_len, q_elems as int),
            head_windows_fit(seq_len, kv_elems as int),
            forall|p: int|
                0 <= p < pos ==> #[trigger] positions@[p] == (QkNormPosition {
                    q: span_at(p, q_elems as int, q_elems as int),
                    k: span_at(p, kv_elems as int, kv_elems as int),
                }),
        decreases seq_len - pos,
    {
        let q = position_span_usize(pos, seq_len, q_elems, q_elems);
        let k = position_span_usize(pos, seq_len, kv_elems, kv_elems);
        positions.push(QkNormPosition { q, k });
        pos = pos + 1;
    }
    QkNormPlan {
        head_dim: head_dim as u32,
        q_heads: num_q_heads as u32,
        k_heads: num_kv_heads as u32,
        positions,
    }
}

/// Plan of `encode_v_norm`: per position, norm `v[span]` with an all-ones
/// weight over `heads` workgroups.
pub struct VNormPlan {
    pub head_dim: u32,
    pub heads: u32,
    pub spans: Vec<Span>,
}

/// Parameter-free per-head RMS norm on V (Gemma 4).
pub fn encode_v_norm(seq_len: usize, num_kv_heads: usize, head_dim: usize) -> (plan: VNormPlan)
    requires
        head_windows_fit(seq_len, num_kv_heads * head_dim),
    ensures
        plan.head_dim == head_dim as u32,
        plan.heads == num_kv_heads as u32,
        plan.spans@.len() == seq_len,
        forall|p: int|
            0 <= p < seq_len ==> #[trigger] plan.spans@[p] == span_at(
                p,
                num_kv_heads * head_dim,
                num_kv_heads * head_dim,
            ),
{
    let kv_elems = num_kv_heads * head_dim;
    let mut spans: Vec<Span> = Vec::new();
    let mut pos: usize = 0;
    while pos < seq_len
        invariant
            pos <= seq_len,
            spans@.len() == pos,
            kv_elems == num_kv_heads * head_dim,
            head_windows_fit(seq_len, kv_elems as int),
            forall|p: int| 0 <= p < pos ==> #[trigger] spans@[p] == span_at(p, kv_elems as int, kv_elems as int),
        decreases seq_len - pos,
    {
        spans.push(position_span_usize(pos, seq_len, kv_elems, kv_elems));
        pos = pos + 1;
    }
    VNormPlan { head_dim: head_dim as u32, heads: num_kv_heads as u32, spans }
}

} // verus!
