//! Q + K + V projections for one position.
//!
//! - `encode_fused_f32`: all three in one fused Q4_K dispatch.
//! - `encode_per_proj`: mixed formats (e.g. Q4_K Q/K with Q6_K V), one
//!   format-routed matvec per projection.
use vstd::prelude::*;
use crate::geometry::{Span, ceil_div, div_ceil_u32};
use crate::quant::QuantFormat;
use crate::stages::input_norm::span_from;
use crate::stages::quant_matvec::{MatvecDispatch, encode as matvec_encode, spec_encode};

verus! {

/// The fused QKV shaders.
#[derive(Clone, Copy, PartialEq, Eq, Structural, Debug)]
pub enum FusedQkvKernel {
    Q4k,
    Q4kQ6k,
}

impl FusedQkvKernel {
    pub open spec fn spec_rows_per_tg(self) -> u32 {
        8
    }

    /// Output rows one workgroup of the fused shader covers.
    pub fn rows_per_tg(self) -> (r: u32)
        ensures
            r == self.spec_rows_per_tg(),
    {
        match self {
            Self::Q4k => 8,
            Self::Q4kQ6k => 8,
        }
    }
}

/// Mode push constant of the fused QKV shader.
pub const QKV_MODE_FUSED: u32 = 0;

/// The fused dispatch: spans of the input and the three outputs, push
/// constants (row counts, input length `cols`, mode) and workgroup count.
#[derive(Clone, Copy, PartialEq, Eq, Structural, Debug)]
pub struct FusedQkvDispatch {
    pub input: Span,
    pub q: Span,
    pub k: Span,
    pub v: Span,
    pub q_rows: u32,
    pub k_rows: u32,
    pub v_rows: u32,
    pub cols: u32,
    pub mode: u32,
    pub groups: u32,
}

/// Fused Q4_K QKV: all three projections in the same format.
pub fn encode_fused_f32(
    kernel: FusedQkvKernel,
    f32_in_off: u64,
    q_off: u64,
    k_off: u64,
    v_off: u64,
    q_rows: usize,
    kv_rows: usize,
    hidden: usize,
) -> (d: FusedQkvDispatch)
    requires
        q_rows + kv_rows + kv_rows <= usize::MAX,
        f32_in_off + hidden <= u64::MAX,
        q_off + q_rows <= u64::MAX,
        k_off + kv_rows <= u64::MAX,
        v_off + kv_rows <= u64::MAX,
    ensures
        d == (FusedQkvDispatch {
            input: span_from(f32_in_off, hidden as int),
            q: span_from(q_off, q_rows as int),
            k: span_from(k_off, kv_rows as int),
            v: span_from(v_off, kv_rows as int),
            q_rows: q_rows as u32,
            k_rows: kv_rows as u32,
            v_rows: kv_rows as u32,
            cols: hidden as u32,
            mode: QKV_MODE_FUSED,
            groups: ceil_div(((q_rows + kv_rows + kv_rows) as u32) as int, 8) as u32,
        }),
{
    let total_rows = (q_rows + kv_rows + kv_rows) as u32;
    let groups = div_ceil_u32(total_rows, kernel.rows_per_tg());
    FusedQkvDispatch {
        input: Span { start: f32_in_off, end: f32_in_off + hidden as u64 },
        q: Span { start: q_off, end: q_off + q_rows as u64 },
        k: Span { start: k_off, end: k_off + kv_rows as u64 },
        v: Span { start: v_off, end: v_off + kv_rows as u64 },
        q_rows: q_rows as u32,
        k_rows: kv_rows as u32,
        v_rows: kv_rows as u32,
        cols: hidden as u32,
        mode: QKV_MODE_FUSED,
        groups,
    }
}

/// One projection of the mixed-format path: its format, weight buffer `W`,
/// output buffer `O`, offset into the output and number of rows.
#[derive(Clone, Copy)]
pub struct Proj<W, O> {
    pub format: QuantFormat,
    pub w_buf: W,
    pub out_buf: O,
    pub out_off: u64,
    pub rows: usize,
}

/// One format-routed matvec of `encode_per_proj`: `out_buf[out] =
/// w_buf . input`, reading the f32 input (or its Q8 form) at the given spans.
#[derive(Clone, Copy)]
pub struct ProjCall<W, O> {
    pub w_buf: W,
    pub out_buf: O,
    pub f32_in: Span,
    pub q8: Span,
    pub q8s: Span,
    pub out: Span,
    pub dispatch: Option<MatvecDispatch>,
}

pub open spec fn spec_proj_call<W, O>(
    p: Proj<W, O>,
    f32_in_off: u64,
    q8_in_off: u64,
    q8s_in_off: u64,
    hidden: usize,
) -> ProjCall<W, O> {
    ProjCall {
        w_buf: p.w_buf,
        out_buf: p.out_buf,
        f32_in: span_from(f32_in_off, hidden as int),
        q8: span_from(q8_in_off, hidden as int),
        q8s: span_from(q8s_in_off, (hidden / 32) as int),
        out: span_from(p.out_off, p.rows as int),
        dispatch: spec_encode(p.format, p.rows, hidden),
    }
}

fn proj_call<W: Copy, O: Copy>(p: Proj<W, O>, f32_in: Span, q8: Span, q8s: Span, hidden: usize) -> (c: ProjCall<W, O>)
    requires
        p.out_off + p.rows <= u64::MAX,
    ensures
        c == (ProjCall {
            w_buf: p.w_buf,
            out_buf: p.out_buf,
            f32_in,
            q8,
            q8s,
            out: span_from(p.out_off, p.rows as int),
            dispatch: spec_encode(p.format, p.rows, hidden),
        }),
{
    ProjCall {
        w_buf: p.w_buf,
        out_buf: p.out_buf,
        f32_in,
        q8,
        q8s,
        out: Span { start: p.out_off, end: p.out_off + p.rows as u64 },
        dispatch: matvec_encode(p.format, p.rows, hidden),
    }
}

/// Per-projection QKV (mixed formats): the three matvecs in the order given.
pub fn encode_per_proj<W: Copy, O: Copy>(
    f32_in_off: u64,
    q8_in_off: u64,
    q8s_in_off: u64,
    projections: [Proj<W, O>; 3],
    hidden: usize,
) -> (calls: [ProjCall<W, O>; 3])
    requires
        f32_in_off + hidden <= u64::MAX,
        q8_in_off + hidden <= u64::MAX,
        q8s_in_off + hidden / 32 <= u64::MAX,
        forall|i: int| 0 <= i < 3 ==> #[trigger] projections@[i].out_off + projections@[i].rows <= u64::MAX,
    ensures
        forall|i: int|
            0 <= i < 3 ==> #[trigger] calls@[i] == spec_proj_call(
                projections@[i],
                f32_in_off,
                q8_in_off,
                q8s_in_off,
                hidden,
            ),
{
    let f32_in = Span { start: f32_in_off, end: f32_in_off + hidden as u64 };
    let q8 = Span { start: q8_in_off, end: q8_in_off + hidden as u64 };
    let q8s = Span { start: q8s_in_off, end: q8s_in_off + (hidden / 32) as u64 };
    let p0 = projections[0];
    let p1 = projections[1];
    let p2 = projections[2];
    assert(projections@[0].out_off + projections@[0].rows <= u64::MAX);
    assert(projections@[1].out_off + projections@[1].rows <= u64::MAX);
    assert(projections@[2].out_off + projections@[2].rows <= u64::MAX);
    let calls = [
        proj_call(p0, f32_in, q8, q8s, hidden),
        proj_call(p1, f32_in, q8, q8s, hidden),
        proj_call(p2, f32_in, q8, q8s, hidden),
    ];
    calls
}

} // verus!
