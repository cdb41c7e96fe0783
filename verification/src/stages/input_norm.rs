//! Input layer norm, the first stage of every transformer layer.
//!
//! - `encode_f32`: RMS norm writing the f32 norm output (for Q4_K / Q6_K
//!   projections, which read f32).
//! - `encode_q8`: RMS norm into a scratch vector followed by Q8 quantisation
//!   (for Q8_0 / Q4_0 projections).
//!
//! Both act on one hidden vector; callers loop over positions.
use vstd::prelude::*;
use crate::geometry::{Span, ceil_div, div_ceil_u32};

verus! {

/// One RMS-norm dispatch (a single workgroup): `output = norm(input)`, push
/// constant `len`.
#[derive(Clone, Copy, PartialEq, Eq, Structural, Debug)]
pub struct RmsNormDispatch {
    pub input: Span,
    pub output: Span,
    pub len: u32,
}

/// The span `[off, off + len)`.
pub open spec fn span_from(off: u64, len: int) -> Span {
    Span { start: off, end: (off + len) as u64 }
}

/// `out[out_off..][..hidden] = rms_norm(h[h_off..][..hidden])`.
pub fn encode_f32(h_off: u64, out_off: u64, hidden: usize) -> (d: RmsNormDispatch)
    requires
        h_off + hidden <= u64::MAX,
        out_off + hidden <= u64::MAX,
    ensures
        d == (RmsNormDispatch {
            input: span_from(h_off, hidden as int),
            output: span_from(out_off, hidden as int),
            len: hidden as u32,
        }),
{
    RmsNormDispatch {
        input: Span { start: h_off, end: h_off + hidden as u64 },
        output: Span { start: out_off, end: out_off + hidden as u64 },
        len: hidden as u32,
    }
}

/// Plan of `encode_q8`: the RMS norm writes `norm.output` of a fresh scratch
/// vector of `scratch_len` f32; the quantisation then reads the whole scratch
/// and writes `q8_out[q8]` and `q8s_out[q8s]` with push constant `len` over
/// `groups` workgroups (one thread per 32-value block).
#[derive(Clone, Copy, PartialEq, Eq, Structural, Debug)]
pub struct RmsNormQ8Plan {
    pub scratch_len: u64,
    pub norm: RmsNormDispatch,
    pub q8: Span,
    pub q8s: Span,
    pub len: u32,
    pub groups: u32,
}

/// RMS norm followed by Q8 quantisation of one hidden vector.
pub fn encode_q8(h_off: u64, q8_out_off: u64, q8s_out_off: u64, hidden: usize) -> (p: RmsNormQ8Plan)
    requires
        h_off + hidden <= u64::MAX,
        q8_out_off + hidden <= u64::MAX,
        q8s_out_off + hidden / 32 <= u64::MAX,
    ensures
        p.scratch_len == hidden,
        p.norm == (RmsNormDispatch {
            input: span_from(h_off, hidden as int),
            output: span_from(0, hidden as int),
            len: hidden as u32,
        }),
        p.q8 == span_from(q8_out_off, hidden as int),
        p.q8s == span_from(q8s_out_off, (hidden / 32) as int),
        p.len == hidden as u32,
        p.groups == ceil_div((hidden as u32) as int, 32),
{
    let hidden_val = hidden as u32;
    let norm = encode_f32(h_off, 0, hidden);
    RmsNormQ8Plan {
        scratch_len: hidden as u64,
        norm,
        q8: Span { start: q8_out_off, end: q8_out_off + hidden as u64 },
        q8s: Span { start: q8s_out_off, end: q8s_out_off + (hidden / 32) as u64 },
        len: hidden_val,
        groups: div_ceil_u32(hidden_val, 32),
    }
}

} // verus!
