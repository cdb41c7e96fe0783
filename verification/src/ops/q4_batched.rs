//! Batched Q4 operations in one command buffer: gate+up for every position,
//! and a multi-layer Q4 FFN that keeps activations on the GPU.
use vstd::prelude::*;
use crate::geometry::{ceil_div, div_ceil_u32};
use crate::ops::q4_matvec::{Q4MatvecPlan, q4_matvec_geometry};

verus! {

/// The `[start, end)` range of `x_matrix` that a position reads.
#[derive(Clone, Copy, PartialEq, Eq, Structural, Debug)]
pub struct XRange {
    pub start: usize,
    pub end: usize,
}

/// What `pair_batch` does at position `s`: quantise `x_matrix[x]`, then a
/// gate and an up matvec with push constants `n`, `k` over `groups`
/// workgroups, each into a fresh output of `out_len` f32 (`out_bytes` bytes).
#[derive(Clone, Copy, PartialEq, Eq, Structural, Debug)]
pub struct PairBatchPosition {
    pub x: XRange,
    pub n: u32,
    pub k: u32,
    pub groups: u32,
    pub out_len: usize,
    pub out_bytes: usize,
}

pub open spec fn spec_pair_batch_position(s: int, num_rows: usize, hidden: usize, rows_per_tg: u32) -> PairBatchPosition {
    PairBatchPosition {
        x: XRange { start: (s * hidden) as usize, end: ((s + 1) * hidden) as usize },
        n: num_rows as u32,
        k: hidden as u32,
        groups: ((num_rows as u32) / rows_per_tg) as u32,
        out_len: num_rows,
        out_bytes: (num_rows * 4) as usize,
    }
}

/// Batched gate+up for all `seq_len` positions of an `x_matrix` of `x_len`
/// values, on a kernel covering `rows_per_tg` rows per workgroup.
pub fn pair_batch(x_len: usize, seq_len: usize, num_rows: usize, hidden: usize, rows_per_tg: u32) -> (p: Vec<
    PairBatchPosition,
>)
    requires
        seq_len * hidden <= x_len,
        seq_len > 0 ==> num_rows * 4 <= usize::MAX && rows_per_tg > 0,
    ensures
        p@.len() == seq_len,
        forall|s: int|
            0 <= s < seq_len ==> #[trigger] p@[s] == spec_pair_batch_position(s, num_rows, hidden, rows_per_tg),
        forall|s: int| 0 <= s < seq_len ==> #[trigger] p@[s].x.end <= x_len,
{
    let mut positions: Vec<PairBatchPosition> = Vec::new();
    let mut s: usize = 0;
    while s < seq_len
        invariant
            s <= seq_len,
            positions@.len() == s,
            seq_len * hidden <= x_len,
            seq_len > 0 ==> num_rows * 4 <= usize::MAX && rows_per_tg > 0,
            forall|i: int|
                0 <= i < s ==> #[trigger] positions@[i] == spec_pair_batch_position(i, num_rows, hidden, rows_per_tg),
            forall|i: int| 0 <= i < s ==> #[trigger] positions@[i].x.end <= x_len,
        decreases seq_len - s,
    {
        assert((s + 1) * hidden <= seq_len * hidden) by (nonlinear_arith)
            requires
                s < seq_len,
        ;
        assert(s * hidden <= (s + 1) * hidden) by (nonlinear_arith);
        positions.push(
            PairBatchPosition {
                x: XRange { start: s * hidden, end: (s + 1) * hidden },
                n: num_rows as u32,
                k: hidden as u32,
                groups: (num_rows as u32) / rows_per_tg,
                out_len: num_rows,
                out_bytes: num_rows * 4,
            },
        );
        s = s + 1;
    }
    positions
}

/// The Q8 quantisation of a layer's down output for the next layer: into Q8
/// buffer `into`, push constant `n` over `groups` workgroups of 256.
#[derive(Clone, Copy, PartialEq, Eq, Structural, Debug)]
pub struct Requantize {
    pub into: usize,
    pub n: u32,
    pub groups: u32,
}

/// One layer of the multi-layer FFN: byte sizes of its gate, up, activation
/// (`inter_bytes` each) and down (`hidden_bytes`) outputs and of the next
/// Q8 buffers (`q8_bytes`, `q8s_bytes`); its gate and up matvecs read Q8
/// buffer `q8_in`; then the GEGLU, the down matvec (f32 input) and, when
/// another layer follows, the requantisation of the down output.
#[derive(Clone, Copy, PartialEq, Eq, Structural, Debug)]
pub struct FfnLayerStep {
    pub inter_bytes: usize,
    pub hidden_bytes: usize,
    pub q8_bytes: usize,
    pub q8s_bytes: usize,
    pub q8_in: usize,
    pub gate_up_n: u32,
    pub gate_up_k: u32,
    pub gate_up_groups: u32,
    pub geglu_n: u32,
    pub geglu_groups: u32,
    pub down_n: u32,
    pub down_k: u32,
    pub down_groups: u32,
    pub requantize: Option<Requantize>,
}

/// Plan of `multi_layer_ffn`: the layers in order and which layer's down
/// output is the result (`None` for an empty stack).
pub struct MultiLayerFfnPlan {
    pub layers: Vec<FfnLayerStep>,
    pub result: Option<usize>,
}

/// The step of layer `l` of `num_layers`.
pub open spec fn spec_ffn_layer_step(
    l: int,
    num_layers: int,
    inter: usize,
    hidden: usize,
    rows_per_tg: u32,
    f32_rows_per_tg: u32,
) -> FfnLayerStep {
    FfnLayerStep {
        inter_bytes: (inter * 4) as usize,
        hidden_bytes: (hidden * 4) as usize,
        q8_bytes: hidden,
        q8s_bytes: ((hidden / 32) * 4) as usize,
        q8_in: l as usize,
        gate_up_n: inter as u32,
        gate_up_k: hidden as u32,
        gate_up_groups: ((inter as u32) / rows_per_tg) as u32,
        geglu_n: inter as u32,
        geglu_groups: ceil_div((inter as u32) as int, 256) as u32,
        down_n: hidden as u32,
        down_k: inter as u32,
        down_groups: ((hidden as u32) / f32_rows_per_tg) as u32,
        requantize: if l + 1 < num_layers {
            Some(
                Requantize {
                    into: (l + 1) as usize,
                    n: hidden as u32,
                    groups: ceil_div((hidden as u32) as int, 256) as u32,
                },
            )
        } else {
            None
        },
    }
}

/// Sizes and row counts the layer loop needs, when there is a layer.
pub open spec fn multi_layer_ffn_fits(
    num_layers: usize,
    inter: usize,
    hidden: usize,
    rows_per_tg: u32,
    f32_rows_per_tg: u32,
) -> bool {
    num_layers > 0 ==> {
        &&& inter * 4 <= usize::MAX
        &&& hidden * 4 <= usize::MAX
        &&& rows_per_tg > 0
        &&& f32_rows_per_tg > 0
    }
}

/// Multi-layer Q4 FFN over `num_layers` layers in one command buffer.
pub fn multi_layer_ffn(
    num_layers: usize,
    inter: usize,
    hidden: usize,
    rows_per_tg: u32,
    f32_rows_per_tg: u32,
) -> (p: MultiLayerFfnPlan)
    requires
        multi_layer_ffn_fits(num_layers, inter, hidden, rows_per_tg, f32_rows_per_tg),
    ensures
        p.layers@.len() == num_layers,
        forall|l: int|
            0 <= l < num_layers ==> #[trigger] p.layers@[l] == spec_ffn_layer_step(
                l,
                num_layers as int,
                inter,
                hidden,
                rows_per_tg,
                f32_rows_per_tg,
            ),
        p.result == if num_layers > 0 {
            Some((num_layers - 1) as usize)
        } else {
            None
        },
{
    let mut layers: Vec<FfnLayerStep> = Vec::new();
    let mut l: usize = 0;
    while l < num_layers
        invariant
            l <= num_layers,
            layers@.len() == l,
            multi_layer_ffn_fits(num_layers, inter, hidden, rows_per_tg, f32_rows_per_tg),
            forall|i: int|
                0 <= i < l ==> #[trigger] layers@[i] == spec_ffn_layer_step(
                    i,
                    num_layers as int,
                    inter,
                    hidden,
                    rows_per_tg,
                    f32_rows_per_tg,
                ),
        decreases num_layers - l,
    {
        let inter_val = inter as u32;
        let hidden_val = hidden as u32;
        let requantize = if l + 1 < num_layers {
            Some(Requantize { into: l + 1, n: hidden_val, groups: div_ceil_u32(hidden_val, 256) })
        } else {
            None
        };
        layers.push(
            FfnLayerStep {
                inter_bytes: inter * 4,
                hidden_bytes: hidden * 4,
                q8_bytes: hidden,
                q8s_bytes: (hidden / 32) * 4,
                q8_in: l,
                gate_up_n: inter_val,
                gate_up_k: hidden_val,
                gate_up_groups: inter_val / rows_per_tg,
                geglu_n: inter_val,
                geglu_groups: div_ceil_u32(inter_val, 256),
                down_n: hidden_val,
                down_k: inter_val,
                down_groups: hidden_val / f32_rows_per_tg,
                requantize,
            },
        );
        l = l + 1;
    }
    let result = if num_layers > 0 {
        Some(num_layers - 1)
    } else {
        None
    };
    MultiLayerFfnPlan { layers, result }
}

/// The layers chain: every layer after the first reads the Q8 buffer the
/// layer before it quantised its down output into, and the last layer
/// quantises nothing.
pub proof fn lemma_ffn_layers_chain(
    l: int,
    num_layers: int,
    inter: usize,
    hidden: usize,
    rows_per_tg: u32,
    f32_rows_per_tg: u32,
)
    requires
        0 < l < num_layers,
    ensures
        spec_ffn_layer_step(l - 1, num_layers, inter, hidden, rows_per_tg, f32_rows_per_tg).requantize matches Some(
            r,
        ) && r.into == spec_ffn_layer_step(l, num_layers, inter, hidden, rows_per_tg, f32_rows_per_tg).q8_in,
        spec_ffn_layer_step(
            num_layers - 1,
            num_layers,
            inter,
            hidden,
            rows_per_tg,
            f32_rows_per_tg,
        ).requantize is None,
{
}

/// At every position of the batch, both Q4_0 products have the dispatch
/// geometry of one standalone Q4_0 matvec of `num_rows x hidden` on the
/// same kernel: equal push constants, workgroups and output size.
pub proof fn lemma_pair_batch_position_is_single_matvec(
    s: int,
    num_rows: usize,
    hidden: usize,
    rows_per_tg: u32,
    single: Q4MatvecPlan,
)
    requires
        q4_matvec_geometry(single, num_rows, hidden, rows_per_tg),
    ensures
        ({
            let b = spec_pair_batch_position(s, num_rows, hidden, rows_per_tg);
            &&& b.n == single.n
            &&& b.k == single.k
            &&& b.groups == single.groups
            &&& b.out_len == single.out_len
            &&& b.out_bytes == single.out_bytes
        }),
{
}

} // verus!
