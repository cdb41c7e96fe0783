//! Per-layer residual scalar (Gemma 4's learned stabiliser): scales the
//! layer's residual at each position by a per-layer scalar.
use vstd::prelude::*;
use crate::geometry::{Span, ceil_div, div_ceil_u32, offsets_fit_usize, position_span_usize, span_at, spans_fit};

verus! {

/// Mode push constant of the residual shader that scales its input.
pub const RESIDUAL_MODE_SCALE: u32 = 2;

/// Plan of the scaling: one dispatch per position over the span of that
/// position's hidden vector (bound as input and output), push constants
/// `len` and `mode`, `groups` workgroups each.
pub struct LayerScalarPlan {
    pub len: u32,
    pub mode: u32,
    pub groups: u32,
    pub spans: Vec<Span>,
}

/// Scales the residual of `seq_len` positions; nothing is dispatched when the
/// scalar is zero (`scalar_is_zero`).
pub fn encode(seq_len: usize, hidden: usize, scalar_is_zero: bool) -> (plan: Option<LayerScalarPlan>)
    requires
        !scalar_is_zero ==> offsets_fit_usize(seq_len as int, hidden as int),
        !scalar_is_zero ==> spans_fit(seq_len as int, hidden as int, hidden as int),
    ensures
        scalar_is_zero <==> plan is None,
        plan matches Some(p) ==> {
            &&& p.len == hidden as u32
            &&& p.mode == RESIDUAL_MODE_SCALE
            &&& p.groups == ceil_div((hidden as u32) as int, 256)
            &&& p.spans@.len() == seq_len
            &&& forall|i: int|
                0 <= i < seq_len ==> #[trigger] p.spans@[i] == span_at(i, hidden as int, hidden as int)
        },
{
    if scalar_is_zero {
        return None;
    }
    let hidden_val = hidden as u32;
    let mut spans: Vec<Span> = Vec::new();
    let mut pos: usize = 0;
    while pos < seq_len
        invariant
            pos <= seq_len,
            spans@.len() == pos,
            offsets_fit_usize(seq_len as int, hidden as int),
            spans_fit(seq_len as int, hidden as int, hidden as int),
            forall|i: int| 0 <= i < pos ==> #[trigger] spans@[i] == span_at(i, hidden as int, hidden as int),
        decreases seq_len - pos,
    {
        spans.push(position_span_usize(pos, seq_len, hidden, hidden));
        pos = pos + 1;
    }
    Some(LayerScalarPlan { len: hidden_val, mode: RESIDUAL_MODE_SCALE, groups: div_ceil_u32(hidden_val, 256), spans })
}

} // verus!
