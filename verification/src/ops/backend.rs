//! Dispatch geometry of the backend's one-shot kernels (RMS norm, SiLU,
//! RoPE, fused attention, f32 GEMV, Q4_K matvec).
use vstd::prelude::*;
use crate::geometry::{ceil_div, groups_of_256};
use crate::quant::{pad_to_words, spec_pad_to_words};

verus! {

/// Workgroups of the per-head RMS norm: one per head.
pub fn rms_norm(num_heads: u32) -> (groups: u32)
    ensures
        groups == num_heads,
{
    num_heads
}

/// Workgroups of the element-wise SiLU over `n` values: 256 per workgroup.
pub fn silu(n: u32) -> (groups: u32)
    requires
        n + 255 <= u32::MAX,
    ensures
        groups == ceil_div(n as int, 256),
        groups * 256 >= n,
{
    proof {
        crate::geometry::lemma_ceil_div_covers(n as int, 256);
    }
    groups_of_256(n)
}

/// Threads of the RoPE kernel: one per rotated pair of every head.
pub open spec fn rope_threads(head_dim: u32, num_q: u32, num_kv: u32) -> int {
    (num_q + num_kv) * (head_dim / 2)
}

/// Workgroups of RoPE over `num_q + num_kv` heads: 256 threads each.
pub fn rope(head_dim: u32, num_q: u32, num_kv: u32) -> (groups: u32)
    requires
        num_q + num_kv <= u32::MAX,
        rope_threads(head_dim, num_q, num_kv) + 255 <= u32::MAX,
    ensures
        groups == ceil_div(rope_threads(head_dim, num_q, num_kv), 256),
        groups * 256 >= rope_threads(head_dim, num_q, num_kv),
{
    let threads = (num_q + num_kv) * (head_dim / 2);
    proof {
        crate::geometry::lemma_ceil_div_covers(threads as int, 256);
    }
    groups_of_256(threads)
}

/// Workgroups of the fused attention kernel: one per query head.
pub fn attn_fused(num_q: u32) -> (groups: u32)
    ensures
        groups == num_q,
{
    num_q
}

/// The f32 GEMV `out[n] = W[n x k] . x`: push constants, output length in
/// f32 values and bytes, one workgroup per output row.
#[derive(Clone, Copy, PartialEq, Eq, Structural, Debug)]
pub struct GemvDispatch {
    pub n: u32,
    pub k: u32,
    pub out_len: usize,
    pub out_bytes: usize,
    pub groups: u32,
}

/// The GEMV of a `w_rows x w_cols` matrix, with both counts truncated to
/// `u32` as the shader reads them.
pub open spec fn spec_gemv(w_rows: usize, w_cols: usize) -> GemvDispatch {
    let n = w_rows as u32;
    GemvDispatch { n, k: w_cols as u32, out_len: n as usize, out_bytes: (n * 4) as usize, groups: n }
}

/// GEMV dispatch of `W[w_rows x w_cols] . x`; `None` when `x` does not have
/// as many values as `W` has columns.
pub fn f32_gemv(w_rows: usize, w_cols: usize, x_len: usize) -> (d: Option<GemvDispatch>)
    requires
        x_len == (w_cols as u32) as usize ==> (w_rows as u32) * 4 <= usize::MAX,
    ensures
        d is None <==> x_len != (w_cols as u32) as usize,
        d matches Some(g) ==> g == spec_gemv(w_rows, w_cols),
{
    let n = w_rows as u32;
    let k = w_cols as u32;
    if x_len != k as usize {
        return None;
    }
    let out_len = n as usize;
    Some(GemvDispatch { n, k, out_len, out_bytes: out_len * 4, groups: n })
}

/// Whether a GEMV of `n x k` is worth the GPU: `2 * n * k` FLOPs at least
/// the threshold (smaller ones are faster on the CPU).
pub open spec fn gemv_on_gpu(n: usize, k: usize, flop_threshold: usize) -> bool {
    !(2 * n * k < flop_threshold)
}

/// Thresholded GEMV routing: `None` (leave it to the CPU) when `x` does not
/// match the column count or the product is under the FLOP threshold; else
/// the `(n, k)` the GPU dispatch is given, truncated to `u32`.
pub fn f32_gemv_thresholded(n: usize, k: usize, x_len: usize, flop_threshold: usize) -> (r: Option<(u32, u32)>)
    requires
        x_len == k ==> 2 * n <= usize::MAX && 2 * n * k <= usize::MAX,
    ensures
        r is Some <==> x_len == k && gemv_on_gpu(n, k, flop_threshold),
        r is Some <==> x_len == k && 2 * n * k >= flop_threshold,
        r matches Some(p) ==> p == (n as u32, k as u32),
{
    if x_len != k {
        return None;
    }
    if 2 * n * k < flop_threshold {
        return None;
    }
    Some((n as u32, k as u32))
}

/// The Q4_K matvec of the backend: weights padded to whole words, push
/// constants, input and output sizes, one workgroup per output row.
pub struct Q4kMatvecPlan {
    pub weights: Vec<u8>,
    pub n: u32,
    pub k: u32,
    pub x_bytes: usize,
    pub out_len: usize,
    pub out_bytes: usize,
    pub groups: u32,
}

/// Plan of `q4k_matvec(weights, x, num_rows, hidden)` for an `x` of `x_len` values.
pub fn q4k_matvec(weights: &[u8], x_len: usize, num_rows: usize, hidden: usize) -> (p: Q4kMatvecPlan)
    requires
        weights@.len() + 3 <= usize::MAX,
        x_len * 4 <= usize::MAX,
        (num_rows as u32) * 4 <= usize::MAX,
    ensures
        p.weights@ == spec_pad_to_words(weights@),
        p.weights@.len() % 4 == 0,
        p.n == num_rows as u32,
        p.k == hidden as u32,
        p.x_bytes == x_len * 4,
        p.out_len == num_rows as u32,
        p.out_bytes == (num_rows as u32) * 4,
        p.groups == num_rows as u32,
{
    let n = num_rows as u32;
    let k = hidden as u32;
    let weights = pad_to_words(weights);
    let out_len = n as usize;
    Q4kMatvecPlan { weights, n, k, x_bytes: x_len * 4, out_len, out_bytes: out_len * 4, groups: n }
}

} // verus!
