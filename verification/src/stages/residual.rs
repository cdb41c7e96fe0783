//! Post-attention and post-FFN residual + norm plans.
//!
//! - `encode_post_attn`: residual add of the attention output (normed first
//!   in post-norm architectures), the pre-FFN RMS norm and, for Q8-input
//!   FFN formats, the Q8 quantisation of the norm output.
//! - `encode_post_ffn`: residual add of the FFN output, normed first when
//!   the architecture has post-norms and a post-FFN norm weight.
use vstd::prelude::*;
use crate::geometry::{Span, ceil_div, div_ceil_u32, position_span, span_at, spans_fit};

verus! {

/// Mode push constant of the residual shader that adds its two inputs.
pub const RESIDUAL_MODE_ADD: u32 = 1;

/// Workgroups of an RMS norm dispatch: the shader loops over the whole
/// vector inside one workgroup.
pub const NORM_WORKGROUPS: u32 = 1;

/// Threads per workgroup of the residual-add shader, capped by the vector length.
pub open spec fn residual_tg_threads(hidden: usize) -> u32 {
    if 256 <= (hidden as u32) { 256 } else { hidden as u32 }
}

/// What `encode_post_attn` does at one position. All of `h`, `o_out`,
/// `h_post_attn` and `ffn_norm_out` are sliced at `span`.
///
/// - `post_norm_scratch: Some(bytes)`: RMS-norm `o_out[span]` with the
///   post-attention norm weight into a fresh scratch of `bytes` bytes, then
///   `h_post_attn[span] = h[span] + scratch`;
///   `None`: `h_post_attn[span] = h[span] + o_out[span]`.
/// - then `ffn_norm_out[span] = rms_norm(h_post_attn[span])` with the pre-FFN weight;
/// - `q8: Some(spans)`: quantise `ffn_norm_out[span]` into
///   `ffn_q8[spans.q8]` and `ffn_q8s[spans.q8s]`.
#[derive(Clone, Copy, PartialEq, Eq, Structural, Debug)]
pub struct PostAttnPosition {
    pub span: Span,
    pub post_norm_scratch: Option<u64>,
    pub q8: Option<Q8Spans>,
}

/// Where a Q8 quantisation writes: the int8 values and the per-32 scales.
#[derive(Clone, Copy, PartialEq, Eq, Structural, Debug)]
pub struct Q8Spans {
    pub q8: Span,
    pub q8s: Span,
}

/// Plan of `encode_post_attn`: push constant `len` shared by every dispatch,
/// the residual add's mode push constant and workgroup count, the norms'
/// workgroup count, the Q8 quantisation's workgroup count, and the
/// per-position steps in order.
pub struct PostAttnPlan {
    pub len: u32,
    pub residual_mode: u32,
    pub residual_groups: u32,
    pub norm_groups: u32,
    pub q8_groups: u32,
    pub positions: Vec<PostAttnPosition>,
}

/// Bytes of one hidden vector of f32.
pub open spec fn spec_hidden_bytes(hidden: usize) -> int {
    hidden * 4
}

/// Preconditions shared by the residual stages.
pub open spec fn residual_inputs_ok(seq_len: usize, hidden: usize, h_stride_bytes: u64) -> bool {
    &&& (hidden as u32) > 0
    &&& hidden * 4 <= usize::MAX
    &&& spans_fit(seq_len as int, h_stride_bytes as int, spec_hidden_bytes(hidden))
}

/// Span lengths of the Q8 outputs: `hidden` int8 bytes and `hidden / 32` f32 scales.
pub open spec fn q8s_bytes(hidden: usize) -> int {
    ((hidden as u32) / 32 * 4) as int
}

pub open spec fn spec_post_attn_position(
    pos: int,
    hidden: usize,
    has_post_norms: bool,
    ffn_needs_q8: bool,
    h_stride_bytes: u64,
    q8_stride_bytes: u64,
    q8s_stride_bytes: u64,
) -> PostAttnPosition {
    PostAttnPosition {
        span: span_at(pos, h_stride_bytes as int, spec_hidden_bytes(hidden)),
        post_norm_scratch: if has_post_norms {
            Some(spec_hidden_bytes(hidden) as u64)
        } else {
            None
        },
        q8: if ffn_needs_q8 {
            Some(
                Q8Spans {
                    q8: span_at(pos, q8_stride_bytes as int, (hidden as u32) as int),
                    q8s: span_at(pos, q8s_stride_bytes as int, q8s_bytes(hidden)),
                },
            )
        } else {
            None
        },
    }
}

/// Post-attention residual + pre-FFN norm (+ optional Q8 quant), per position.
pub fn encode_post_attn(
    seq_len: usize,
    hidden: usize,
    has_post_norms: bool,
    ffn_needs_q8: bool,
    h_stride_bytes: u64,
    q8_stride_bytes: u64,
    q8s_stride_bytes: u64,
) -> (plan: PostAttnPlan)
    requires
        residual_inputs_ok(seq_len, hidden, h_stride_bytes),
        ffn_needs_q8 ==> spans_fit(seq_len as int, q8_stride_bytes as int, (hidden as u32) as int),
        ffn_needs_q8 ==> spans_fit(seq_len as int, q8s_stride_bytes as int, q8s_bytes(hidden)),
    ensures
        plan.len == hidden as u32,
        plan.residual_mode == RESIDUAL_MODE_ADD,
        plan.norm_groups == NORM_WORKGROUPS,
        plan.residual_groups == ceil_div((hidden as u32) as int, residual_tg_threads(hidden) as int),
        plan.q8_groups == ceil_div((hidden as u32) as int, 32),
        plan.positions@.len() == seq_len,
        forall|p: int|
            0 <= p < seq_len ==> #[trigger] plan.positions@[p] == spec_post_attn_position(
                p,
                hidden,
                has_post_norms,
                ffn_needs_q8,
                h_stride_bytes,
                q8_stride_bytes,
                q8s_stride_bytes,
            ),
{
    let hidden_val = hidden as u32;
    let tg_threads = if 256 <= hidden_val { 256 } else { hidden_val };
    let blocks = div_ceil_u32(hidden_val, tg_threads);
    let hidden_bytes = (hidden * 4) as u64;
    let q8s_len = (hidden_val / 32 * 4) as u64;
    let mut positions: Vec<PostAttnPosition> = Vec::new();
    let mut pos: usize = 0;
    while pos < seq_len
        invariant
            pos <= seq_len,
            positions@.len() == pos,
            residual_inputs_ok(seq_len, hidden, h_stride_bytes),
            ffn_needs_q8 ==> spans_fit(seq_len as int, q8_stride_bytes as int, (hidden as u32) as int),
            ffn_needs_q8 ==> spans_fit(seq_len as int, q8s_stride_bytes as int, q8s_bytes(hidden)),
            hidden_val == hidden as u32,
            hidden_bytes == spec_hidden_bytes(hidden),
            q8s_len == q8s_bytes(hidden),
            forall|p: int|
                0 <= p < pos ==> #[trigger] positions@[p] == spec_post_attn_position(
                    p,
                    hidden,
                    has_post_norms,
                    ffn_needs_q8,
                    h_stride_bytes,
                    q8_stride_bytes,
                    q8s_stride_bytes,
                ),
        decreases seq_len - pos,
    {
        let span = position_span(pos, seq_len, h_stride_bytes, hidden_bytes);
        let post_norm_scratch = if has_post_norms {
            Some(hidden_bytes)
        } else {
            None
        };
        let q8 = if ffn_needs_q8 {
            Some(
                Q8Spans {
                    q8: position_span(pos, seq_len, q8_stride_bytes, hidden_val as u64),
                    q8s: position_span(pos, seq_len, q8s_stride_bytes, q8s_len),
                },
            )
        } else {
            None
        };
        positions.push(PostAttnPosition { span, post_norm_scratch, q8 });
        pos = pos + 1;
    }
    PostAttnPlan {
        len: hidden_val,
        residual_mode: RESIDUAL_MODE_ADD,
        residual_groups: blocks,
        norm_groups: NORM_WORKGROUPS,
        q8_groups: div_ceil_u32(hidden_val, 32),
        positions,
    }
}

/// What `encode_post_ffn` does at one position. `down_out`, `h_post_attn`
/// and `h_next` are sliced at `span`.
///
/// - `post_norm_scratch: Some(bytes)`: RMS-norm `down_out[span]` with the
///   post-FFN norm weight into a fresh scratch of `bytes` bytes, then
///   `h_next[span] = h_post_attn[span] + scratch`;
/// - `None`: `h_next[span] = h_post_attn[span] + down_out[span]`.
#[derive(Clone, Copy, PartialEq, Eq, Structural, Debug)]
pub struct PostFfnPosition {
    pub span: Span,
    pub post_norm_scratch: Option<u64>,
}

/// Plan of `encode_post_ffn`: push constant `len`, the residual add's mode
/// push constant and workgroup count, the norm's workgroup count, and the
/// per-position steps in order.
pub struct PostFfnPlan {
    pub len: u32,
    pub residual_mode: u32,
    pub residual_groups: u32,
    pub norm_groups: u32,
    pub positions: Vec<PostFfnPosition>,
}

pub open spec fn spec_post_ffn_position(
    pos: int,
    hidden: usize,
    has_post_norms: bool,
    has_post_ffn_norm: bool,
    h_stride_bytes: u64,
) -> PostFfnPosition {
    PostFfnPosition {
        span: span_at(pos, h_stride_bytes as int, spec_hidden_bytes(hidden)),
        post_norm_scratch: if has_post_norms && has_post_ffn_norm {
            Some(spec_hidden_bytes(hidden) as u64)
        } else {
            None
        },
    }
}

/// Post-FFN residual + optional post-FFN RMS norm, per position.
/// `has_post_ffn_norm` tells whether a post-FFN norm weight was supplied.
pub fn encode_post_ffn(
    seq_len: usize,
    hidden: usize,
    has_post_norms: bool,
    has_post_ffn_norm: bool,
    h_stride_bytes: u64,
) -> (plan: PostFfnPlan)
    requires
        residual_inputs_ok(seq_len, hidden, h_stride_bytes),
    ensures
        plan.len == hidden as u32,
        plan.residual_mode == RESIDUAL_MODE_ADD,
        plan.norm_groups == NORM_WORKGROUPS,
        plan.residual_groups == ceil_div((hidden as u32) as int, residual_tg_threads(hidden) as int),
        plan.positions@.len() == seq_len,
        forall|p: int|
            0 <= p < seq_len ==> #[trigger] plan.positions@[p] == spec_post_ffn_position(
                p,
                hidden,
                has_post_norms,
                has_post_ffn_norm,
                h_stride_bytes,
            ),
{
    let hidden_val = hidden as u32;
    let tg_threads = if 256 <= hidden_val { 256 } else { hidden_val };
    let blocks = div_ceil_u32(hidden_val, tg_threads);
    let hidden_bytes = (hidden * 4) as u64;
    let mut positions: Vec<PostFfnPosition> = Vec::new();
    let mut pos: usize = 0;
    while pos < seq_len
        invariant
            pos <= seq_len,
            positions@.len() == pos,
            residual_inputs_ok(seq_len, hidden, h_stride_bytes),
            hidden_bytes == spec_hidden_bytes(hidden),
            forall|p: int|
                0 <= p < pos ==> #[trigger] positions@[p] == spec_post_ffn_position(
                    p,
                    hidden,
                    has_post_norms,
                    has_post_ffn_norm,
                    h_stride_bytes,
                ),
        decreases seq_len - pos,
    {
        let span = position_span(pos, seq_len, h_stride_bytes, hidden_bytes);
        let post_norm_scratch = if has_post_norms && has_post_ffn_norm {
            Some(hidden_bytes)
        } else {
            None
        };
        positions.push(PostFfnPosition { span, post_norm_scratch });
        pos = pos + 1;
    }
    PostFfnPlan {
        len: hidden_val,
        residual_mode: RESIDUAL_MODE_ADD,
        residual_groups: blocks,
        norm_groups: NORM_WORKGROUPS,
        positions,
    }
}

} // verus!
