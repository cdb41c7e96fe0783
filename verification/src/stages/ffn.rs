//! Feed-forward block plans: gate+up -> activation -> down.
//!
//! - Gated (Llama / Gemma / Qwen): `out = down(act(gate) * up)`.
//! - Standard (StarCoder2): `out = down(act(up))`, no gate.
//!
//! A plan lists, in encoding order, every matvec call (with the spans of the
//! buffers it reads and writes, and the dispatch the weight format routes to)
//! and the single activation dispatch over all positions.
use vstd::prelude::*;
use std::sync::Arc;
use vulkano::pipeline::ComputePipeline;
use crate::geometry::{Span, ceil_div, div_ceil_u32, position_span, span_at, spans_fit};
use crate::quant::QuantFormat;
use crate::stages::quant_matvec::{MatvecDispatch, encode, spec_encode};

verus! {

/// Activation variant for this layer.
#[derive(Clone, Copy, PartialEq, Eq, Structural, Debug)]
pub enum Activation {
    SiLU,
    GeluTanh,
}

impl Activation {
    /// The `mode` push constant the activation shaders switch on.
    pub open spec fn spec_mode(self) -> u32 {
        match self {
            Activation::SiLU => 0,
            Activation::GeluTanh => 1,
        }
    }

    pub fn mode(self) -> (m: u32)
        ensures
            m == self.spec_mode(),
    {
        match self {
            Activation::SiLU => 0,
            Activation::GeluTanh => 1,
        }
    }
}

/// Fused activation+down pipelines; carried for the callers that have them,
/// the separated path below does not use them.
pub struct FusedGegluDown<'a> {
    pub q4k_silu: Option<&'a Arc<ComputePipeline>>,
    pub q4k_gelu_tanh: Option<&'a Arc<ComputePipeline>>,
    pub q6k_silu: Option<&'a Arc<ComputePipeline>>,
    pub q6k_gelu_tanh: Option<&'a Arc<ComputePipeline>>,
}

/// One matvec of an FFN stage: the span of its f32 input, of the Q8 input and
/// Q8 scales (bound for the Q8-input formats), of its output, and the
/// dispatch its weight format routes to (`None`: nothing is dispatched).
#[derive(Clone, Copy, PartialEq, Eq, Structural, Debug)]
pub struct FfnMatvec {
    pub input: Span,
    pub q8: Span,
    pub q8s: Span,
    pub out: Span,
    pub dispatch: Option<MatvecDispatch>,
}

/// Gate projection followed by up projection at one position.
#[derive(Clone, Copy, PartialEq, Eq, Structural, Debug)]
pub struct GateUp {
    pub gate: FfnMatvec,
    pub up: FfnMatvec,
}

/// The activation dispatch over `total` values of all positions.
#[derive(Clone, Copy, PartialEq, Eq, Structural, Debug)]
pub struct ActivationDispatch {
    pub activation: Activation,
    pub total: u32,
    pub mode: u32,
    pub groups: u32,
}

/// Gated FFN: for each position gate (weights `gate_buf`, input
/// `ffn_norm_out`, output `gate_scratch`) then up (into `up_scratch`); then
/// the GEGLU activation `act_scratch = act(gate_scratch) * up_scratch`; then
/// for each position down (weights `down_buf`, input `act_scratch`, output
/// `down_out`).
pub struct GatedFfnPlan {
    pub gate_up: Vec<GateUp>,
    pub activation: ActivationDispatch,
    pub down: Vec<FfnMatvec>,
}

/// Standard FFN: for each position up (input `ffn_norm_out`, output
/// `up_scratch`); then `act_scratch = act(up_scratch)`; then for each
/// position down (input `act_scratch`, output `down_out`).
pub struct StandardFfnPlan {
    pub up: Vec<FfnMatvec>,
    pub activation: ActivationDispatch,
    pub down: Vec<FfnMatvec>,
}

/// Per-position strides of the buffers an FFN stage slices.
#[derive(Clone, Copy, PartialEq, Eq, Structural, Debug)]
pub struct FfnStrides {
    pub h_stride_bytes: u64,
    pub inter_stride_bytes: u64,
    pub q8_stride_bytes: u64,
    pub q8s_stride_bytes: u64,
}

/// Whether every span the stage cuts for `seq_len` positions fits in `u64`.
pub open spec fn ffn_spans_fit(seq_len: usize, inter: usize, hidden: usize, s: FfnStrides) -> bool {
    &&& spans_fit(seq_len as int, s.h_stride_bytes as int, hidden as int)
    &&& spans_fit(seq_len as int, s.inter_stride_bytes as int, inter as int)
    &&& spans_fit(seq_len as int, s.q8_stride_bytes as int, hidden as int)
    &&& spans_fit(seq_len as int, s.q8s_stride_bytes as int, (hidden / 32) as int)
}

/// The matvec at position `pos` reading f32 `input` and writing `out`.
pub open spec fn spec_ffn_matvec(
    format: QuantFormat,
    pos: int,
    input: Span,
    out: Span,
    num_rows: usize,
    cols: usize,
    hidden: usize,
    s: FfnStrides,
) -> FfnMatvec {
    FfnMatvec {
        input,
        q8: span_at(pos, s.q8_stride_bytes as int, hidden as int),
        q8s: span_at(pos, s.q8s_stride_bytes as int, (hidden / 32) as int),
        out,
        dispatch: spec_encode(format, num_rows, cols),
    }
}

/// Matvec `x[pos] (cols) -> y[pos] (rows)` of the up / gate direction.
pub open spec fn spec_in_matvec(
    format: QuantFormat,
    pos: int,
    inter: usize,
    hidden: usize,
    s: FfnStrides,
) -> FfnMatvec {
    spec_ffn_matvec(
        format,
        pos,
        span_at(pos, s.h_stride_bytes as int, hidden as int),
        span_at(pos, s.inter_stride_bytes as int, inter as int),
        inter,
        hidden,
        hidden,
        s,
    )
}

/// Matvec of the down direction at `pos`.
pub open spec fn spec_down_matvec(
    format: QuantFormat,
    pos: int,
    inter: usize,
    hidden: usize,
    s: FfnStrides,
) -> FfnMatvec {
    spec_ffn_matvec(
        format,
        pos,
        span_at(pos, s.inter_stride_bytes as int, inter as int),
        span_at(pos, s.h_stride_bytes as int, hidden as int),
        hidden,
        inter,
        hidden,
        s,
    )
}

/// The activation over all `seq_len * inter` values (count truncated to `u32`).
pub open spec fn spec_activation(activation: Activation, seq_len: usize, inter: usize) -> ActivationDispatch {
    let total = (seq_len * inter) as u32;
    ActivationDispatch {
        activation,
        total,
        mode: activation.spec_mode(),
        groups: ceil_div(total as int, 256) as u32,
    }
}

fn in_matvec(
    format: QuantFormat,
    pos: usize,
    seq_len: usize,
    inter: usize,
    hidden: usize,
    s: FfnStrides,
) -> (m: FfnMatvec)
    requires
        pos < seq_len,
        ffn_spans_fit(seq_len, inter, hidden, s),
    ensures
        m == spec_in_matvec(format, pos as int, inter, hidden, s),
{
    FfnMatvec {
        input: position_span(pos, seq_len, s.h_stride_bytes, hidden as u64),
        q8: position_span(pos, seq_len, s.q8_stride_bytes, hidden as u64),
        q8s: position_span(pos, seq_len, s.q8s_stride_bytes, (hidden / 32) as u64),
        out: position_span(pos, seq_len, s.inter_stride_bytes, inter as u64),
        dispatch: encode(format, inter, hidden),
    }
}

fn down_matvec(
    format: QuantFormat,
    pos: usize,
    seq_len: usize,
    inter: usize,
    hidden: usize,
    s: FfnStrides,
) -> (m: FfnMatvec)
    requires
        pos < seq_len,
        ffn_spans_fit(seq_len, inter, hidden, s),
    ensures
        m == spec_down_matvec(format, pos as int, inter, hidden, s),
{
    FfnMatvec {
        input: position_span(pos, seq_len, s.inter_stride_bytes, inter as u64),
        q8: position_span(pos, seq_len, s.q8_stride_bytes, hidden as u64),
        q8s: position_span(pos, seq_len, s.q8s_stride_bytes, (hidden / 32) as u64),
        out: position_span(pos, seq_len, s.h_stride_bytes, hidden as u64),
        dispatch: encode(format, hidden, inter),
    }
}

fn activation_dispatch(activation: Activation, seq_len: usize, inter: usize) -> (a: ActivationDispatch)
    requires
        seq_len * inter <= usize::MAX,
    ensures
        a == spec_activation(activation, seq_len, inter),
{
    let total = (seq_len * inter) as u32;
    ActivationDispatch { activation, total, mode: activation.mode(), groups: div_ceil_u32(total, 256) }
}

fn down_calls(
    format: QuantFormat,
    seq_len: usize,
    inter: usize,
    hidden: usize,
    s: FfnStrides,
) -> (down: Vec<FfnMatvec>)
    requires
        ffn_spans_fit(seq_len, inter, hidden, s),
    ensures
        down@.len() == seq_len,
        forall|p: int| 0 <= p < seq_len ==> #[trigger] down@[p] == spec_down_matvec(format, p, inter, hidden, s),
{
    let mut down: Vec<FfnMatvec> = Vec::new();
    let mut pos: usize = 0;
    while pos < seq_len
        invariant
            pos <= seq_len,
            down@.len() == pos,
            ffn_spans_fit(seq_len, inter, hidden, s),
            forall|p: int| 0 <= p < pos ==> #[trigger] down@[p] == spec_down_matvec(format, p, inter, hidden, s),
        decreases seq_len - pos,
    {
        down.push(down_matvec(format, pos, seq_len, inter, hidden, s));
        pos = pos + 1;
    }
    down
}

/// Gated FFN (Llama / Gemma / Qwen): `down(act(gate) * up)`.
pub fn encode_gated(
    gate_format: QuantFormat,
    up_format: QuantFormat,
    down_format: QuantFormat,
    activation: Activation,
    seq_len: usize,
    inter: usize,
    hidden: usize,
    strides: FfnStrides,
) -> (plan: GatedFfnPlan)
    requires
        ffn_spans_fit(seq_len, inter, hidden, strides),
        seq_len * inter <= usize::MAX,
    ensures
        plan.gate_up@.len() == seq_len,
        forall|p: int|
            0 <= p < seq_len ==> #[trigger] plan.gate_up@[p] == (GateUp {
                gate: spec_in_matvec(gate_format, p, inter, hidden, strides),
                up: spec_in_matvec(up_format, p, inter, hidden, strides),
            }),
        plan.activation == spec_activation(activation, seq_len, inter),
        plan.down@.len() == seq_len,
        forall|p: int|
            0 <= p < seq_len ==> #[trigger] plan.down@[p] == spec_down_matvec(down_format, p, inter, hidden, strides),
{
    let mut gate_up: Vec<GateUp> = Vec::new();
    let mut pos: usize = 0;
    while pos < seq_len
        invariant
            pos <= seq_len,
            gate_up@.len() == pos,
            ffn_spans_fit(seq_len, inter, hidden, strides),
            forall|p: int|
                0 <= p < pos ==> #[trigger] gate_up@[p] == (GateUp {
                    gate: spec_in_matvec(gate_format, p, inter, hidden, strides),
                    up: spec_in_matvec(up_format, p, inter, hidden, strides),
                }),
        decreases seq_len - pos,
    {
        let gate = in_matvec(gate_format, pos, seq_len, inter, hidden, strides);
        let up = in_matvec(up_format, pos, seq_len, inter, hidden, strides);
        gate_up.push(GateUp { gate, up });
        pos = pos + 1;
    }
    let activation = activation_dispatch(activation, seq_len, inter);
    let down = down_calls(down_format, seq_len, inter, hidden, strides);
    GatedFfnPlan { gate_up, activation, down }
}

/// Standard FFN (StarCoder2): `down(act(up))`. No gate.
pub fn encode_standard(
    up_format: QuantFormat,
    down_format: QuantFormat,
    activation: Activation,
    seq_len: usize,
    inter: usize,
    hidden: usize,
    strides: FfnStrides,
) -> (plan: StandardFfnPlan)
    requires
        ffn_spans_fit(seq_len, inter, hidden, strides),
        seq_len * inter <= usize::MAX,
    ensures
        plan.up@.len() == seq_len,
        forall|p: int|
            0 <= p < seq_len ==> #[trigger] plan.up@[p] == spec_in_matvec(up_format, p, inter, hidden, strides),
        plan.activation == spec_activation(activation, seq_len, inter),
        plan.down@.len() == seq_len,
        forall|p: int|
            0 <= p < seq_len ==> #[trigger] plan.down@[p] == spec_down_matvec(down_format, p, inter, hidden, strides),
{
    let mut up: Vec<FfnMatvec> = Vec::new();
    let mut pos: usize = 0;
    while pos < seq_len
        invariant
            pos <= seq_len,
            up@.len() == pos,
            ffn_spans_fit(seq_len, inter, hidden, strides),
            forall|p: int| 0 <= p < pos ==> #[trigger] up@[p] == spec_in_matvec(up_format, p, inter, hidden, strides),
        decreases seq_len - pos,
    {
        up.push(in_matvec(up_format, pos, seq_len, inter, hidden, strides));
        pos = pos + 1;
    }
    let activation = activation_dispatch(activation, seq_len, inter);
    let down = down_calls(down_format, seq_len, inter, hidden, strides);
    StandardFfnPlan { up, activation, down }
}

} // verus!
