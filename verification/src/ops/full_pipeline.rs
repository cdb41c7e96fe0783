//! All layers (Q4 attention + FFN, with norms and residuals) in one command
//! buffer: the per-layer plans and the cache bookkeeping.
use vstd::prelude::*;
use crate::geometry::{ceil_div, div_ceil_u32};
use crate::kv_cache::{KVCache, LayerKVCache};
use crate::ops::full_layer::{
    ElementwiseGeom, LayerKernelRows, MatvecGeom, ProjDispatch, full_layer_fits, layer_attn, proj, spec_layer_attn,
    spec_proj,
};
use crate::stages::attention::AttnDispatch;
use crate::stages::residual::RESIDUAL_MODE_ADD;

verus! {

/// What the pipeline needs to know of a layer's weights: head counts and
/// size, whether the attention weights are stored as f32, and which optional
/// norm weights are present.
#[derive(Clone, Copy, PartialEq, Eq, Structural, Debug)]
pub struct LayerShape {
    pub num_q_heads: usize,
    pub num_kv_heads: usize,
    pub head_dim: usize,
    pub attn_weights_f32: bool,
    pub has_post_attn_norm: bool,
    pub has_q_norm: bool,
    pub has_k_norm: bool,
}

/// Where a layer reads its hidden state from.
#[derive(Clone, Copy, PartialEq, Eq, Structural, Debug)]
pub enum LayerInput {
    /// The pipeline input `x`.
    PipelineInput,
    /// The residual output of the previous layer.
    PreviousLayer,
}

/// Which weight the post-attention norm uses.
#[derive(Clone, Copy, PartialEq, Eq, Structural, Debug)]
pub enum PostAttnNormWeight {
    PostAttn,
    /// Layers without a post-attention norm reuse the input norm weight.
    Input,
}

/// Byte sizes of a layer's scratch buffers; the four hidden-state buffers
/// (norm output, post-attention residual, its norm, next hidden) share `h_bytes`.
#[derive(Clone, Copy, PartialEq, Eq, Structural, Debug)]
pub struct PipelineLayerBuffers {
    pub q_bytes: usize,
    pub kv_bytes: usize,
    pub o_out_bytes: usize,
    pub inter_bytes: usize,
    pub ffn_out_bytes: usize,
    pub h_bytes: usize,
    pub q8_x_bytes: usize,
    pub q8_s_bytes: usize,
}

/// Residual add dispatch over `len` values (mode: add).
#[derive(Clone, Copy, PartialEq, Eq, Structural, Debug)]
pub struct ResidualGeom {
    pub len: u32,
    pub mode: u32,
    pub groups: u32,
}

/// Plan of one layer: input norm, Q/K/V projections, fused attention, O
/// projection, residual add, post-attention norm, Q8 quantisation, gate/up,
/// GEGLU, down, residual add. Norms run in one workgroup over `norm_len`
/// values.
pub struct PipelineLayerPlan {
    pub input: LayerInput,
    pub post_attn_norm: PostAttnNormWeight,
    pub buffers: PipelineLayerBuffers,
    pub norm_len: u32,
    pub q_proj: ProjDispatch,
    pub k_proj: ProjDispatch,
    pub v_proj: ProjDispatch,
    pub attn: AttnDispatch,
    pub o_proj: ProjDispatch,
    pub residual: ResidualGeom,
    pub q8: ElementwiseGeom,
    pub gate_up: MatvecGeom,
    pub geglu: ElementwiseGeom,
    pub down: MatvecGeom,
}

/// Whether the layer can run: the attention weights are f32 and both QK-norm
/// weights are present.
pub open spec fn layer_runnable(shape: LayerShape) -> bool {
    shape.attn_weights_f32 && shape.has_q_norm && shape.has_k_norm
}

pub open spec fn layer_fits(current_len: usize, shape: LayerShape, hidden: usize, inter: usize, seq_len: usize, rows: LayerKernelRows) -> bool {
    &&& full_layer_fits(
        current_len,
        seq_len,
        hidden,
        shape.num_q_heads,
        shape.num_kv_heads,
        shape.head_dim,
        inter,
        rows,
    )
    &&& seq_len * (hidden / 32) <= usize::MAX
    &&& seq_len * (hidden / 32) * 4 <= usize::MAX
}

/// The plan of layer `l` (when runnable) against a cache holding `current_len`.
pub open spec fn spec_layer_plan(
    l: int,
    current_len: usize,
    shape: LayerShape,
    hidden: usize,
    inter: usize,
    seq_len: usize,
    rows: LayerKernelRows,
) -> PipelineLayerPlan {
    let h = seq_len * hidden;
    let q_dim = shape.num_q_heads * shape.head_dim;
    let kv_dim = shape.num_kv_heads * shape.head_dim;
    PipelineLayerPlan {
        input: if l == 0 {
            LayerInput::PipelineInput
        } else {
            LayerInput::PreviousLayer
        },
        post_attn_norm: if shape.has_post_attn_norm {
            PostAttnNormWeight::PostAttn
        } else {
            PostAttnNormWeight::Input
        },
        buffers: PipelineLayerBuffers {
            q_bytes: (seq_len * shape.num_q_heads * shape.head_dim * 4) as usize,
            kv_bytes: (seq_len * shape.num_kv_heads * shape.head_dim * 4) as usize,
            o_out_bytes: (h * 4) as usize,
            inter_bytes: (inter * 4) as usize,
            ffn_out_bytes: (hidden * 4) as usize,
            h_bytes: (h * 4) as usize,
            q8_x_bytes: h as usize,
            q8_s_bytes: (seq_len * (hidden / 32) * 4) as usize,
        },
        norm_len: h as u32,
        q_proj: spec_proj(seq_len, q_dim, hidden as int, rows.sgemm),
        k_proj: spec_proj(seq_len, kv_dim, hidden as int, rows.sgemm),
        v_proj: spec_proj(seq_len, kv_dim, hidden as int, rows.sgemm),
        attn: spec_layer_attn(current_len, seq_len, shape.num_q_heads, shape.num_kv_heads, shape.head_dim),
        o_proj: spec_proj(seq_len, hidden as int, q_dim, rows.sgemm),
        residual: ResidualGeom { len: h as u32, mode: RESIDUAL_MODE_ADD, groups: ((h as u32) / 256 + 1) as u32 },
        q8: ElementwiseGeom { n: h as u32, groups: ((h as u32) / 32) as u32 },
        gate_up: MatvecGeom { n: inter as u32, k: hidden as u32, groups: ((inter as u32) / rows.q4) as u32 },
        geglu: ElementwiseGeom { n: inter as u32, groups: ceil_div((inter as u32) as int, 256) as u32 },
        down: MatvecGeom { n: hidden as u32, k: inter as u32, groups: ((hidden as u32) / rows.q4_f32) as u32 },
    }
}

/// Plan of layer `l` over `seq_len` new positions given its cache; `None`
/// when the layer's attention weights are not f32 or a QK-norm weight is
/// missing. The caller records the step with `kv_layer.advance(seq_len)`
/// once the layer is encoded.
pub fn dispatch_layer<B>(
    kv_layer: &LayerKVCache<B>,
    l: usize,
    shape: &LayerShape,
    hidden: usize,
    inter: usize,
    seq_len: usize,
    rows: LayerKernelRows,
) -> (p: Option<PipelineLayerPlan>)
    requires
        layer_fits(kv_layer.current_len, *shape, hidden, inter, seq_len, rows),
    ensures
        p is Some <==> layer_runnable(*shape),
        p matches Some(plan) ==> plan == spec_layer_plan(
            l as int,
            kv_layer.current_len,
            *shape,
            hidden,
            inter,
            seq_len,
            rows,
        ),
        p matches Some(plan) ==> {
            &&& plan.k_proj.n == (shape.num_kv_heads * shape.head_dim) as u32
            &&& plan.v_proj == plan.k_proj
            &&& plan.down.n == hidden as u32
            &&& plan.down.k == inter as u32
            &&& plan.down.groups == (hidden as u32) / rows.q4_f32
        },
{
    proof {
        lemma_layer_plan_shapes(l as int, kv_layer.current_len, *shape, hidden, inter, seq_len, rows);
    }
    if !shape.attn_weights_f32 || !shape.has_q_norm || !shape.has_k_norm {
        return None;
    }
    let h = seq_len * hidden;
    let q_dim = shape.num_q_heads * shape.head_dim;
    let kv_dim = shape.num_kv_heads * shape.head_dim;
    let buffers = PipelineLayerBuffers {
        q_bytes: seq_len * shape.num_q_heads * shape.head_dim * 4,
        kv_bytes: seq_len * shape.num_kv_heads * shape.head_dim * 4,
        o_out_bytes: h * 4,
        inter_bytes: inter * 4,
        ffn_out_bytes: hidden * 4,
        h_bytes: h * 4,
        q8_x_bytes: h,
        q8_s_bytes: seq_len * (hidden / 32) * 4,
    };
    let h_val = h as u32;
    let inter_val = inter as u32;
    let hidden_val = hidden as u32;
    Some(
        PipelineLayerPlan {
            input: if l == 0 {
                LayerInput::PipelineInput
            } else {
                LayerInput::PreviousLayer
            },
            post_attn_norm: if shape.has_post_attn_norm {
                PostAttnNormWeight::PostAttn
            } else {
                PostAttnNormWeight::Input
            },
            buffers,
            norm_len: h_val,
            q_proj: proj(seq_len, q_dim, hidden, rows.sgemm),
            k_proj: proj(seq_len, kv_dim, hidden, rows.sgemm),
            v_proj: proj(seq_len, kv_dim, hidden, rows.sgemm),
            attn: layer_attn(kv_layer.current_len, seq_len, shape.num_q_heads, shape.num_kv_heads, shape.head_dim),
            o_proj: proj(seq_len, hidden, q_dim, rows.sgemm),
            residual: ResidualGeom { len: h_val, mode: RESIDUAL_MODE_ADD, groups: h_val / 256 + 1 },
            q8: ElementwiseGeom { n: h_val, groups: h_val / 32 },
            gate_up: MatvecGeom { n: inter_val, k: hidden_val, groups: inter_val / rows.q4 },
            geglu: ElementwiseGeom { n: inter_val, groups: div_ceil_u32(inter_val, 256) },
            down: MatvecGeom { n: hidden_val, k: inter_val, groups: hidden_val / rows.q4_f32 },
        },
    )
}

/// Whether the pipeline reaches layer `l`: every layer before it can run.
pub open spec fn reaches(layers: Seq<LayerShape>, l: int) -> bool {
    forall|j: int| 0 <= j < l ==> layer_runnable(#[trigger] layers[j])
}

/// Every layer the pipeline reaches has a cache and fits against it.
pub open spec fn pipeline_fits<B>(
    caches: Seq<LayerKVCache<B>>,
    layers: Seq<LayerShape>,
    hidden: usize,
    inter: usize,
    seq_len: usize,
    rows: LayerKernelRows,
) -> bool {
    forall|l: int|
        0 <= l < layers.len() && #[trigger] reaches(layers, l) ==> {
            &&& l < caches.len()
            &&& layer_fits(caches[l].current_len, layers[l], hidden, inter, seq_len, rows)
        }
}

/// The buffer holding the pipeline's output hidden state.
#[derive(Clone, Copy, PartialEq, Eq, Structural, Debug)]
pub enum PipelineOutput {
    /// The pipeline input `x`, passed through unchanged.
    PipelineInput,
    /// The hidden state written by the final residual add of layer `l`.
    LayerOutput(usize),
}

/// What a run of the pipeline did: how many layers were encoded, whether
/// that is all of them, and which buffer holds the output hidden state.
#[derive(Clone, Copy, PartialEq, Eq, Structural, Debug)]
pub struct PipelineRun {
    pub done: usize,
    pub complete: bool,
    pub output: PipelineOutput,
}

/// The output of a pipeline that encoded `done` layers: the input when no
/// layer ran, else the next hidden state of the last layer that ran.
pub open spec fn spec_pipeline_output(done: int) -> PipelineOutput {
    if done == 0 {
        PipelineOutput::PipelineInput
    } else {
        PipelineOutput::LayerOutput((done - 1) as usize)
    }
}

/// Whether layer `l` was planned against `cache` and `encode` reported
/// `outcome` for it.
pub open spec fn layer_encoded<B, F: Fn(usize, &LayerKVCache<B>, PipelineLayerPlan) -> bool>(
    encode: F,
    l: int,
    cache: LayerKVCache<B>,
    shape: LayerShape,
    hidden: usize,
    inter: usize,
    seq_len: usize,
    rows: LayerKernelRows,
    outcome: bool,
) -> bool {
    call_ensures(
        encode,
        (l as usize, &cache, spec_layer_plan(l, cache.current_len, shape, hidden, inter, seq_len, rows)),
        outcome,
    )
}

/// The whole pipeline, layer by layer in order: plans each layer against its
/// cache, hands the layer index, its cache and the plan to `encode_layer`
/// (which records the layer's commands), and records the `seq_len` new
/// positions in that layer's cache once the layer was encoded. Stops at the
/// first layer that cannot run or whose encoding failed; the layers before
/// it keep their recorded step. Returns how many layers were encoded,
/// whether that is all of them, and which buffer holds the output: the
/// input when no layer ran, else the last encoded layer's next hidden state.
pub fn dispatch_full_pipeline<B, F: Fn(usize, &LayerKVCache<B>, PipelineLayerPlan) -> bool>(
    kv_cache: &mut KVCache<B>,
    layers: &[LayerShape],
    hidden: usize,
    inter: usize,
    seq_len: usize,
    rows: LayerKernelRows,
    encode_layer: &F,
) -> (r: PipelineRun)
    requires
        pipeline_fits(old(kv_cache).layers@, layers@, hidden, inter, seq_len, rows),
        forall|l: usize, c: &LayerKVCache<B>, p: PipelineLayerPlan| call_requires(*encode_layer, (l, c, p)),
    ensures
        final(kv_cache).layers@.len() == old(kv_cache).layers@.len(),
        r.done <= layers@.len(),
        r.complete <==> r.done == layers@.len(),
        r.output == spec_pipeline_output(r.done as int),
        layers@.len() == 0 ==> r.output == PipelineOutput::PipelineInput && final(kv_cache).layers@
            == old(kv_cache).layers@,
        forall|j: int|
            0 <= j < r.done ==> layer_runnable(#[trigger] layers@[j]) && layer_encoded(
                *encode_layer,
                j,
                old(kv_cache).layers@[j],
                layers@[j],
                hidden,
                inter,
                seq_len,
                rows,
                true,
            ),
        r.done < layers@.len() ==> !layer_runnable(layers@[r.done as int]) || layer_encoded(
            *encode_layer,
            r.done as int,
            old(kv_cache).layers@[r.done as int],
            layers@[r.done as int],
            hidden,
            inter,
            seq_len,
            rows,
            false,
        ),
        forall|l: int|
            0 <= l < old(kv_cache).layers@.len() ==> {
                let (a, b) = (#[trigger] final(kv_cache).layers@[l], old(kv_cache).layers@[l]);
                &&& a.current_len == if l < r.done {
                    (b.current_len + seq_len) as usize
                } else {
                    b.current_len
                }
                &&& a.k_cache == b.k_cache
                &&& a.v_cache == b.v_cache
                &&& a.max_seq == b.max_seq
                &&& a.num_kv_heads == b.num_kv_heads
                &&& a.head_dim == b.head_dim
            },
{
    let ghost old_layers = kv_cache.layers@;
    let mut l: usize = 0;
    while l < layers.len()
        invariant
            l <= layers@.len(),
            old_layers == old(kv_cache).layers@,
            pipeline_fits(old_layers, layers@, hidden, inter, seq_len, rows),
            forall|l: usize, c: &LayerKVCache<B>, p: PipelineLayerPlan| call_requires(*encode_layer, (l, c, p)),
            kv_cache.layers@.len() == old_layers.len(),
            forall|j: int|
                0 <= j < l ==> layer_runnable(#[trigger] layers@[j]) && layer_encoded(
                    *encode_layer,
                    j,
                    old_layers[j],
                    layers@[j],
                    hidden,
                    inter,
                    seq_len,
                    rows,
                    true,
                ),
            forall|j: int|
                0 <= j < old_layers.len() ==> {
                    let (a, b) = (#[trigger] kv_cache.layers@[j], old_layers[j]);
                    &&& a.current_len == if j < l {
                        (b.current_len + seq_len) as usize
                    } else {
                        b.current_len
                    }
                    &&& a.k_cache == b.k_cache
                    &&& a.v_cache == b.v_cache
                    &&& a.max_seq == b.max_seq
                    &&& a.num_kv_heads == b.num_kv_heads
                    &&& a.head_dim == b.head_dim
                },
        decreases layers@.len() - l,
    {
        assert(reaches(layers@, l as int));
        assert(l < old_layers.len() && layer_fits(
            old_layers[l as int].current_len,
            layers@[l as int],
            hidden,
            inter,
            seq_len,
            rows,
        ));
        assert(kv_cache.layers@[l as int] == old_layers[l as int]);
        let plan = match dispatch_layer(&kv_cache.layers[l], l, &layers[l], hidden, inter, seq_len, rows) {
            Some(p) => p,
            None => {
                return PipelineRun { done: l, complete: false, output: pipeline_output(l) };
            },
        };
        let encoded = encode_layer(l, &kv_cache.layers[l], plan);
        if !encoded {
            return PipelineRun { done: l, complete: false, output: pipeline_output(l) };
        }
        kv_cache.layers[l].advance(seq_len);
        l = l + 1;
    }
    proof {
        if layers@.len() == 0 {
            assert(kv_cache.layers@ =~= old_layers);
        }
    }
    PipelineRun { done: l, complete: true, output: pipeline_output(l) }
}

/// The output buffer of a pipeline that encoded `done` layers.
pub fn pipeline_output(done: usize) -> (o: PipelineOutput)
    ensures
        o == spec_pipeline_output(done as int),
{
    if done == 0 {
        PipelineOutput::PipelineInput
    } else {
        PipelineOutput::LayerOutput(done - 1)
    }
}

/// Shapes of a layer's products: Q/K/V project the `hidden`-wide normed input
/// to `num_q_heads * head_dim`, `num_kv_heads * head_dim` and again
/// `num_kv_heads * head_dim` rows (V like K), O projects the attention
/// output back to `hidden`; gate and up map `hidden` to `inter`, and down
/// maps the `inter`-wide activation back to `hidden`; every SGEMM covers
/// `seq_len` rows of input; attention spans the cache plus the new
/// positions.
pub proof fn lemma_layer_plan_shapes(
    l: int,
    current_len: usize,
    shape: LayerShape,
    hidden: usize,
    inter: usize,
    seq_len: usize,
    rows: LayerKernelRows,
) -> (p: PipelineLayerPlan)
    requires
        rows.sgemm > 0,
        rows.q4 > 0,
        rows.q4_f32 > 0,
    ensures
        p == spec_layer_plan(l, current_len, shape, hidden, inter, seq_len, rows),
        p.q_proj.n == (shape.num_q_heads * shape.head_dim) as u32 && p.q_proj.k == hidden as u32,
        p.k_proj.n == (shape.num_kv_heads * shape.head_dim) as u32 && p.k_proj.k == hidden as u32,
        p.v_proj == p.k_proj,
        p.o_proj.n == hidden as u32 && p.o_proj.k == (shape.num_q_heads * shape.head_dim) as u32,
        p.q_proj.m == seq_len as u32 && p.k_proj.m == seq_len as u32 && p.o_proj.m == seq_len as u32,
        p.q_proj.groups_x == (shape.num_q_heads * shape.head_dim) as u32 / rows.sgemm,
        p.k_proj.groups_x == (shape.num_kv_heads * shape.head_dim) as u32 / rows.sgemm,
        p.o_proj.groups_x == (hidden as u32) / rows.sgemm,
        p.gate_up.n == inter as u32 && p.gate_up.k == hidden as u32,
        p.gate_up.groups == (inter as u32) / rows.q4,
        p.down.n == hidden as u32 && p.down.k == inter as u32,
        p.down.groups == (hidden as u32) / rows.q4_f32,
        p.down.n == p.gate_up.k && p.down.k == p.gate_up.n,
        p.geglu.n == p.gate_up.n,
        p.attn.t == (current_len + seq_len) as u32,
        p.attn.num_q == shape.num_q_heads as u32 && p.attn.num_kv == shape.num_kv_heads as u32,
{
    spec_layer_plan(l, current_len, shape, hidden, inter, seq_len, rows)
}

/// Sizes of a layer's buffers and element-wise passes: Q holds `seq_len`
/// rows of `num_q_heads * head_dim` f32, K and V `seq_len` rows of
/// `num_kv_heads * head_dim`; the hidden-state buffers hold `seq_len` rows of
/// `hidden` f32, which the norms, the residual adds and the Q8 pass all
/// cover (one int8 byte per value and one f32 scale per 32); the residual
/// grid of 256-wide workgroups and the GEGLU grid cover their vectors; the
/// first layer reads the pipeline input and every later layer the layer
/// before it; attention rotates the whole head with no window.
pub proof fn lemma_layer_plan_sizes(
    l: int,
    current_len: usize,
    shape: LayerShape,
    hidden: usize,
    inter: usize,
    seq_len: usize,
    rows: LayerKernelRows,
) -> (p: PipelineLayerPlan)
    requires
        layer_fits(current_len, shape, hidden, inter, seq_len, rows),
        seq_len * hidden <= u32::MAX,
    ensures
        p == spec_layer_plan(l, current_len, shape, hidden, inter, seq_len, rows),
        p.buffers.q_bytes == seq_len * (shape.num_q_heads * shape.head_dim) * 4,
        p.buffers.kv_bytes == seq_len * (shape.num_kv_heads * shape.head_dim) * 4,
        p.buffers.h_bytes == seq_len * hidden * 4,
        p.buffers.o_out_bytes == p.buffers.h_bytes,
        p.buffers.inter_bytes == inter * 4,
        p.buffers.ffn_out_bytes == hidden * 4,
        p.norm_len == seq_len * hidden,
        p.residual.len == p.norm_len && p.residual.mode == RESIDUAL_MODE_ADD,
        p.residual.groups * 256 > p.residual.len,
        p.q8.n == p.norm_len && p.q8.groups == p.norm_len / 32,
        p.buffers.q8_x_bytes == p.norm_len,
        p.buffers.q8_s_bytes == seq_len * (hidden / 32) * 4,
        p.geglu.groups * 256 >= p.geglu.n,
        p.geglu.n == 0 || (p.geglu.groups - 1) * 256 < p.geglu.n,
        p.input == LayerInput::PipelineInput <==> l == 0,
        p.post_attn_norm == PostAttnNormWeight::PostAttn <==> shape.has_post_attn_norm,
        p.attn.head_dim == shape.head_dim as u32 && p.attn.rotary_dim == shape.head_dim as u32,
        p.attn.window_size == 0,
{
    let p = spec_layer_plan(l, current_len, shape, hidden, inter, seq_len, rows);
    assert(seq_len * shape.num_q_heads * shape.head_dim == seq_len * (shape.num_q_heads * shape.head_dim))
        by (nonlinear_arith);
    assert(seq_len * shape.num_kv_heads * shape.head_dim == seq_len * (shape.num_kv_heads * shape.head_dim))
        by (nonlinear_arith);
    let h = (seq_len * hidden) as u32;
    assert(h / 256 * 256 + h % 256 == h) by (nonlinear_arith);
    assert((h / 256 + 1) * 256 > h) by (nonlinear_arith)
        requires
            h / 256 * 256 + h % 256 == h,
            h % 256 < 256,
    ;
    crate::geometry::lemma_ceil_div_covers((inter as u32) as int, 256);
    p
}

} // verus!
