//! A whole transformer layer (attention + Q4 FFN) in one command buffer.
use vstd::prelude::*;
use crate::geometry::{ceil_div, div_ceil_u32};
use crate::kv_cache::LayerKVCache;
use crate::stages::attention::AttnDispatch;

verus! {

/// An SGEMM (B transposed) projection `out[M x N] = in[M x K] . W^T`: push
/// constants and grid `(N / rows_per_tg, M)`.
#[derive(Clone, Copy, PartialEq, Eq, Structural, Debug)]
pub struct ProjDispatch {
    pub m: u32,
    pub n: u32,
    pub k: u32,
    pub groups_x: u32,
    pub groups_y: u32,
}

pub open spec fn spec_proj(seq_len: usize, out_dim: int, k: int, rows_per_tg: u32) -> ProjDispatch {
    ProjDispatch {
        m: seq_len as u32,
        n: out_dim as u32,
        k: k as u32,
        groups_x: ((out_dim as u32) / rows_per_tg) as u32,
        groups_y: seq_len as u32,
    }
}

pub fn proj(seq_len: usize, out_dim: usize, k: usize, rows_per_tg: u32) -> (d: ProjDispatch)
    requires
        rows_per_tg > 0,
    ensures
        d == spec_proj(seq_len, out_dim as int, k as int, rows_per_tg),
{
    ProjDispatch {
        m: seq_len as u32,
        n: out_dim as u32,
        k: k as u32,
        groups_x: (out_dim as u32) / rows_per_tg,
        groups_y: seq_len as u32,
    }
}

/// A matvec push-constant pair and workgroup count.
#[derive(Clone, Copy, PartialEq, Eq, Structural, Debug)]
pub struct MatvecGeom {
    pub n: u32,
    pub k: u32,
    pub groups: u32,
}

/// An element-wise dispatch over `n` values.
#[derive(Clone, Copy, PartialEq, Eq, Structural, Debug)]
pub struct ElementwiseGeom {
    pub n: u32,
    pub groups: u32,
}

/// Byte sizes of the scratch buffers of one layer.
#[derive(Clone, Copy, PartialEq, Eq, Structural, Debug)]
pub struct FullLayerBuffers {
    pub q_bytes: usize,
    pub kv_bytes: usize,
    pub o_out_bytes: usize,
    pub inter_bytes: usize,
    pub final_bytes: usize,
    pub q8_x_bytes: usize,
    pub q8_s_bytes: usize,
}

/// Plan of the layer: buffers, Q/K/V projections, fused attention over the
/// cached positions plus the new ones, O projection, Q8 quantisation of the
/// O output, gate and up Q4 matvecs, GEGLU, down matvec (f32 input).
pub struct FullLayerPlan {
    pub buffers: FullLayerBuffers,
    pub q_proj: ProjDispatch,
    pub k_proj: ProjDispatch,
    pub v_proj: ProjDispatch,
    pub attn: AttnDispatch,
    pub o_proj: ProjDispatch,
    pub q8: ElementwiseGeom,
    pub gate_up: MatvecGeom,
    pub geglu: ElementwiseGeom,
    pub down: MatvecGeom,
}

/// Row counts of the kernels a layer dispatches.
#[derive(Clone, Copy, PartialEq, Eq, Structural, Debug)]
pub struct LayerKernelRows {
    pub sgemm: u32,
    pub q4: u32,
    pub q4_f32: u32,
}

/// Every size the layer computes fits in a `usize`, the cache length does
/// too after the step, and the kernels cover at least one row.
pub open spec fn full_layer_fits(
    current_len: usize,
    seq_len: usize,
    hidden: usize,
    num_q_heads: usize,
    num_kv_heads: usize,
    head_dim: usize,
    inter: usize,
    rows: LayerKernelRows,
) -> bool {
    &&& current_len + seq_len <= usize::MAX
    &&& seq_len * num_q_heads * head_dim * 4 <= usize::MAX
    &&& seq_len * num_q_heads <= usize::MAX
    &&& seq_len * num_q_heads * head_dim <= usize::MAX
    &&& seq_len * num_kv_heads <= usize::MAX
    &&& seq_len * num_kv_heads * head_dim <= usize::MAX
    &&& seq_len * num_kv_heads * head_dim * 4 <= usize::MAX
    &&& seq_len * hidden <= usize::MAX
    &&& seq_len * hidden * 4 <= usize::MAX
    &&& num_q_heads * head_dim <= usize::MAX
    &&& num_kv_heads * head_dim <= usize::MAX
    &&& inter * 4 <= usize::MAX
    &&& hidden * 4 <= usize::MAX
    &&& rows.sgemm > 0
    &&& rows.q4 > 0
    &&& rows.q4_f32 > 0
}

/// The attention of a step of `seq_len` new positions over a cache holding
/// `current_len`: spans `current_len + seq_len` positions, full rotary
/// width, one workgroup per query head.
pub open spec fn spec_layer_attn(
    current_len: usize,
    seq_len: usize,
    num_q_heads: usize,
    num_kv_heads: usize,
    head_dim: usize,
) -> AttnDispatch {
    AttnDispatch {
        t: (current_len + seq_len) as u32,
        head_dim: head_dim as u32,
        num_q: num_q_heads as u32,
        num_kv: num_kv_heads as u32,
        rotary_dim: head_dim as u32,
        window_size: 0,
        groups_x: num_q_heads as u32,
        groups_y: 1,
    }
}

pub fn layer_attn(current_len: usize, seq_len: usize, num_q_heads: usize, num_kv_heads: usize, head_dim: usize) -> (a:
    AttnDispatch)
    requires
        current_len + seq_len <= usize::MAX,
    ensures
        a == spec_layer_attn(current_len, seq_len, num_q_heads, num_kv_heads, head_dim),
{
    AttnDispatch {
        t: (current_len + seq_len) as u32,
        head_dim: head_dim as u32,
        num_q: num_q_heads as u32,
        num_kv: num_kv_heads as u32,
        rotary_dim: head_dim as u32,
        window_size: 0,
        groups_x: num_q_heads as u32,
        groups_y: 1,
    }
}

/// The plan of a full layer over `seq_len` new positions against a cache
/// holding `current_len`.
pub open spec fn spec_full_layer_plan(
    current_len: usize,
    seq_len: usize,
    hidden: usize,
    num_q_heads: usize,
    num_kv_heads: usize,
    head_dim: usize,
    inter: usize,
    rows: LayerKernelRows,
) -> FullLayerPlan {
    FullLayerPlan {
        buffers: FullLayerBuffers {
            q_bytes: (seq_len * num_q_heads * head_dim * 4) as usize,
            kv_bytes: (seq_len * num_kv_heads * head_dim * 4) as usize,
            o_out_bytes: (seq_len * hidden * 4) as usize,
            inter_bytes: (inter * 4) as usize,
            final_bytes: (hidden * 4) as usize,
            q8_x_bytes: hidden,
            q8_s_bytes: ((hidden / 32) * 4) as usize,
        },
        q_proj: spec_proj(seq_len, num_q_heads * head_dim, hidden as int, rows.sgemm),
        k_proj: spec_proj(seq_len, num_kv_heads * head_dim, hidden as int, rows.sgemm),
        v_proj: spec_proj(seq_len, num_kv_heads * head_dim, hidden as int, rows.sgemm),
        attn: spec_layer_attn(current_len, seq_len, num_q_heads, num_kv_heads, head_dim),
        o_proj: spec_proj(seq_len, hidden as int, num_q_heads * head_dim, rows.sgemm),
        q8: ElementwiseGeom { n: hidden as u32, groups: ceil_div((hidden as u32) as int, 256) as u32 },
        gate_up: MatvecGeom { n: inter as u32, k: hidden as u32, groups: ((inter as u32) / rows.q4) as u32 },
        geglu: ElementwiseGeom { n: inter as u32, groups: ceil_div((inter as u32) as int, 256) as u32 },
        down: MatvecGeom { n: hidden as u32, k: inter as u32, groups: ((hidden as u32) / rows.q4_f32) as u32 },
    }
}

/// Plan of a full layer over `seq_len` new positions given the layer's cache.
/// `run` plans, executes and records the step in the cache.
pub fn dispatch<B>(
    kv_cache: &LayerKVCache<B>,
    seq_len: usize,
    hidden: usize,
    num_q_heads: usize,
    num_kv_heads: usize,
    head_dim: usize,
    inter: usize,
    rows: LayerKernelRows,
) -> (p: FullLayerPlan)
    requires
        full_layer_fits(kv_cache.current_len, seq_len, hidden, num_q_heads, num_kv_heads, head_dim, inter, rows),
    ensures
        p == spec_full_layer_plan(kv_cache.current_len, seq_len, hidden, num_q_heads, num_kv_heads, head_dim, inter, rows),
        p.k_proj.n == (num_kv_heads * head_dim) as u32,
        p.v_proj == p.k_proj,
        p.down.n == hidden as u32 && p.down.k == inter as u32 && p.down.groups == (hidden as u32) / rows.q4_f32,
{
    proof {
        lemma_full_layer_plan_shapes(kv_cache.current_len, seq_len, hidden, num_q_heads, num_kv_heads, head_dim, inter, rows);
    }
    let q_dim = num_q_heads * head_dim;
    let kv_dim = num_kv_heads * head_dim;
    let buffers = FullLayerBuffers {
        q_bytes: seq_len * num_q_heads * head_dim * 4,
        kv_bytes: seq_len * num_kv_heads * head_dim * 4,
        o_out_bytes: seq_len * hidden * 4,
        inter_bytes: inter * 4,
        final_bytes: hidden * 4,
        q8_x_bytes: hidden,
        q8_s_bytes: (hidden / 32) * 4,
    };
    let hidden_val = hidden as u32;
    let inter_val = inter as u32;
    FullLayerPlan {
        buffers,
        q_proj: proj(seq_len, q_dim, hidden, rows.sgemm),
        k_proj: proj(seq_len, kv_dim, hidden, rows.sgemm),
        v_proj: proj(seq_len, kv_dim, hidden, rows.sgemm),
        attn: layer_attn(kv_cache.current_len, seq_len, num_q_heads, num_kv_heads, head_dim),
        o_proj: proj(seq_len, hidden, q_dim, rows.sgemm),
        q8: ElementwiseGeom { n: hidden_val, groups: div_ceil_u32(hidden_val, 256) },
        gate_up: MatvecGeom { n: inter_val, k: hidden_val, groups: inter_val / rows.q4 },
        geglu: ElementwiseGeom { n: inter_val, groups: div_ceil_u32(inter_val, 256) },
        down: MatvecGeom { n: hidden_val, k: inter_val, groups: hidden_val / rows.q4_f32 },
    }
}

/// Runs a full layer: plans it against the cache, hands the cache and the
/// plan to `execute` (which records the commands, submits them and waits),
/// and records the `seq_len` new positions in the cache exactly when
/// `execute` reports that the layer ran. Returns that report.
pub fn run<B, F: Fn(&LayerKVCache<B>, FullLayerPlan) -> bool>(
    kv_cache: &mut LayerKVCache<B>,
    seq_len: usize,
    hidden: usize,
    num_q_heads: usize,
    num_kv_heads: usize,
    head_dim: usize,
    inter: usize,
    rows: LayerKernelRows,
    execute: &F,
) -> (ran: bool)
    requires
        full_layer_fits(old(kv_cache).current_len, seq_len, hidden, num_q_heads, num_kv_heads, head_dim, inter, rows),
        forall|c: &LayerKVCache<B>, p: FullLayerPlan| call_requires(*execute, (c, p)),
    ensures
        call_ensures(
            *execute,
            (
                &*old(kv_cache),
                spec_full_layer_plan(
                    old(kv_cache).current_len,
                    seq_len,
                    hidden,
                    num_q_heads,
                    num_kv_heads,
                    head_dim,
                    inter,
                    rows,
                ),
            ),
            ran,
        ),
        final(kv_cache).current_len == if ran {
            (old(kv_cache).current_len + seq_len) as usize
        } else {
            old(kv_cache).current_len
        },
        final(kv_cache).k_cache == old(kv_cache).k_cache,
        final(kv_cache).v_cache == old(kv_cache).v_cache,
        final(kv_cache).max_seq == old(kv_cache).max_seq,
        final(kv_cache).num_kv_heads == old(kv_cache).num_kv_heads,
        final(kv_cache).head_dim == old(kv_cache).head_dim,
{
    let plan = dispatch(&*kv_cache, seq_len, hidden, num_q_heads, num_kv_heads, head_dim, inter, rows);
    let ran = execute(&*kv_cache, plan);
    if ran {
        kv_cache.advance(seq_len);
    }
    ran
}

/// The attention of a step spans exactly the positions the cache holds once
/// the step is recorded: planning against a cache of length `current_len`
/// and then advancing it by `seq_len` gives `t` equal to the new length.
pub proof fn lemma_attention_spans_advanced_cache<B>(
    before: LayerKVCache<B>,
    after: LayerKVCache<B>,
    seq_len: usize,
    num_q_heads: usize,
    num_kv_heads: usize,
    head_dim: usize,
)
    requires
        after.current_len == before.current_len + seq_len,
    ensures
        spec_layer_attn(before.current_len, seq_len, num_q_heads, num_kv_heads, head_dim).t == after.current_len as u32,
{
}

/// Shapes of a full layer's products: Q/K/V project the `hidden`-wide input
/// to `num_q_heads * head_dim`, `num_kv_heads * head_dim` and again
/// `num_kv_heads * head_dim` rows (V like K), O projects the attention
/// output back to `hidden`; gate and up map `hidden` to `inter`, down maps
/// the `inter`-wide activation back to `hidden`; the K and V outputs fit the
/// `kv_bytes` buffers and Q's the `q_bytes` one.
pub proof fn lemma_full_layer_plan_shapes(
    current_len: usize,
    seq_len: usize,
    hidden: usize,
    num_q_heads: usize,
    num_kv_heads: usize,
    head_dim: usize,
    inter: usize,
    rows: LayerKernelRows,
) -> (p: FullLayerPlan)
    requires
        rows.sgemm > 0,
        rows.q4 > 0,
        rows.q4_f32 > 0,
    ensures
        p == spec_full_layer_plan(current_len, seq_len, hidden, num_q_heads, num_kv_heads, head_dim, inter, rows),
        p.q_proj.n == (num_q_heads * head_dim) as u32 && p.q_proj.k == hidden as u32,
        p.k_proj.n == (num_kv_heads * head_dim) as u32 && p.k_proj.k == hidden as u32,
        p.v_proj == p.k_proj,
        p.v_proj.groups_x == p.v_proj.n / rows.sgemm,
        p.o_proj.n == hidden as u32 && p.o_proj.k == (num_q_heads * head_dim) as u32,
        p.q_proj.m == seq_len as u32 && p.k_proj.m == seq_len as u32 && p.o_proj.m == seq_len as u32,
        p.q_proj.groups_x == (num_q_heads * head_dim) as u32 / rows.sgemm,
        p.o_proj.groups_x == (hidden as u32) / rows.sgemm,
        p.gate_up.n == inter as u32 && p.gate_up.k == hidden as u32,
        p.down.n == hidden as u32 && p.down.k == inter as u32,
        p.down.groups == (hidden as u32) / rows.q4_f32,
        p.down.n == p.gate_up.k && p.down.k == p.gate_up.n,
        p.attn.t == (current_len + seq_len) as u32,
{
    spec_full_layer_plan(current_len, seq_len, hidden, num_q_heads, num_kv_heads, head_dim, inter, rows)
}

/// Sizes of a full layer's buffers and element-wise passes: Q and the
/// attention output hold `seq_len` rows of `num_q_heads * head_dim` f32, K
/// and V `seq_len` rows of `num_kv_heads * head_dim`, the O output `seq_len`
/// rows of `hidden`; the three FFN intermediates `inter` f32 each and the
/// layer output `hidden`; the Q8 pass quantises `hidden` values (one int8
/// byte each, one f32 scale per 32) over 256-wide workgroups that cover
/// them, and the GEGLU grid covers `inter`.
pub proof fn lemma_full_layer_plan_sizes(
    current_len: usize,
    seq_len: usize,
    hidden: usize,
    num_q_heads: usize,
    num_kv_heads: usize,
    head_dim: usize,
    inter: usize,
    rows: LayerKernelRows,
) -> (p: FullLayerPlan)
    requires
        full_layer_fits(current_len, seq_len, hidden, num_q_heads, num_kv_heads, head_dim, inter, rows),
        hidden <= u32::MAX,
        inter <= u32::MAX,
    ensures
        p == spec_full_layer_plan(current_len, seq_len, hidden, num_q_heads, num_kv_heads, head_dim, inter, rows),
        p.buffers.q_bytes == seq_len * (num_q_heads * head_dim) * 4,
        p.buffers.kv_bytes == seq_len * (num_kv_heads * head_dim) * 4,
        p.buffers.o_out_bytes == seq_len * hidden * 4,
        p.buffers.inter_bytes == inter * 4,
        p.buffers.final_bytes == hidden * 4,
        p.buffers.q8_x_bytes == hidden,
        p.buffers.q8_s_bytes == hidden / 32 * 4,
        p.q8.n == hidden,
        p.q8.groups * 256 >= hidden,
        hidden == 0 || (p.q8.groups - 1) * 256 < hidden,
        p.geglu.n == inter,
        p.geglu.groups * 256 >= inter,
        inter == 0 || (p.geglu.groups - 1) * 256 < inter,
        p.attn.rotary_dim == head_dim as u32 && p.attn.window_size == 0,
{
    assert(seq_len * num_q_heads * head_dim == seq_len * (num_q_heads * head_dim)) by (nonlinear_arith);
    assert(seq_len * num_kv_heads * head_dim == seq_len * (num_kv_heads * head_dim)) by (nonlinear_arith);
    crate::geometry::lemma_ceil_div_covers(hidden as int, 256);
    crate::geometry::lemma_ceil_div_covers(inter as int, 256);
    spec_full_layer_plan(current_len, seq_len, hidden, num_q_heads, num_kv_heads, head_dim, inter, rows)
}

} // verus!
