//! Output projection (`attn_out -> o_out`) for one position, routed by the
//! O-weight format: Q4_K / Q4_KF / Q6_K read the f32 attention output
//! directly; the other formats first quantise it to the Q8 staging buffers.
use vstd::prelude::*;
use crate::geometry::{Span, ceil_div, div_ceil_u32};
use crate::quant::QuantFormat;
use crate::stages::input_norm::span_from;
use crate::stages::quant_matvec::{MatvecDispatch, encode as matvec_encode, spec_encode};

verus! {

/// Formats whose matvec reads the f32 input vector.
pub open spec fn is_f32_input(format: QuantFormat) -> bool {
    matches!(format, QuantFormat::Q4_K | QuantFormat::Q4_KF | QuantFormat::Q6_K)
}

/// A Q8 quantisation dispatch: push constant `len` (values), `groups`
/// workgroups of one thread per 32-value block.
#[derive(Clone, Copy, PartialEq, Eq, Structural, Debug)]
pub struct Q8Quantize {
    pub len: u32,
    pub groups: u32,
}

/// Plan of one O projection: the spans it slices, the optional quantisation
/// of `attn_in[attn_in]` into `q8_stage[q8]` / `q8s_stage[q8s]`, and the
/// matvec `o_out[out] = Wo . attn_in` (`None`: the format dispatches nothing).
#[derive(Clone, Copy, PartialEq, Eq, Structural, Debug)]
pub struct OProjPlan {
    pub attn_in: Span,
    pub q8: Span,
    pub q8s: Span,
    pub out: Span,
    pub quantize: Option<Q8Quantize>,
    pub matvec: Option<MatvecDispatch>,
}

/// Per-position O projection.
pub fn encode(
    format: QuantFormat,
    attn_in_off: u64,
    q8_stage_off: u64,
    q8s_stage_off: u64,
    o_out_off: u64,
    q_dim: usize,
    hidden: usize,
) -> (p: OProjPlan)
    requires
        attn_in_off + q_dim <= u64::MAX,
        q8_stage_off + q_dim <= u64::MAX,
        q8s_stage_off + q_dim / 32 <= u64::MAX,
        o_out_off + hidden <= u64::MAX,
    ensures
        p == (OProjPlan {
            attn_in: span_from(attn_in_off, q_dim as int),
            q8: span_from(q8_stage_off, q_dim as int),
            q8s: span_from(q8s_stage_off, (q_dim / 32) as int),
            out: span_from(o_out_off, hidden as int),
            quantize: if is_f32_input(format) {
                None
            } else {
                Some(Q8Quantize { len: q_dim as u32, groups: ceil_div((q_dim as u32) as int, 32) as u32 })
            },
            matvec: spec_encode(format, hidden, q_dim),
        }),
{
    let is_f32 = match format {
        QuantFormat::Q4_K | QuantFormat::Q4_KF | QuantFormat::Q6_K => true,
        _ => false,
    };
    let dim_val = q_dim as u32;
    let quantize = if !is_f32 {
        Some(Q8Quantize { len: dim_val, groups: div_ceil_u32(dim_val, 32) })
    } else {
        None
    };
    OProjPlan {
        attn_in: Span { start: attn_in_off, end: attn_in_off + q_dim as u64 },
        q8: Span { start: q8_stage_off, end: q8_stage_off + q_dim as u64 },
        q8s: Span { start: q8s_stage_off, end: q8s_stage_off + (q_dim / 32) as u64 },
        out: Span { start: o_out_off, end: o_out_off + hidden as u64 },
        quantize,
        matvec: matvec_encode(format, hidden, q_dim),
    }
}

} // verus!
