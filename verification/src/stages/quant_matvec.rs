//! Format-aware single-vector matvec: which shader, which input form, and
//! how many workgroups a weight format needs.
use vstd::prelude::*;
use std::sync::Arc;
use vulkano::pipeline::ComputePipeline;
use crate::geometry::{ceil_div, div_ceil_u32};
use crate::quant::QuantFormat;

verus! {

/// Rows of output each matvec workgroup covers.
pub const MATVEC_ROWS_PER_TG: u32 = 4;

/// The matvec shaders this stage dispatches.
#[derive(Clone, Copy, PartialEq, Eq, Structural, Debug)]
pub enum MatvecKernel {
    Q4kMatvec,
    Q6kMatvec,
    Q4Vecmat,
}

/// What the dispatch binds as its input vector.
#[derive(Clone, Copy, PartialEq, Eq, Structural, Debug)]
pub enum MatvecInput {
    /// `(weights, f32 input, output)`.
    F32,
    /// `(weights, q8 input, q8 scales, output)`.
    Q8,
}

/// One matvec dispatch: shader, input form, push constants `n`, `k`, and the
/// workgroup count along x.
#[derive(Clone, Copy, PartialEq, Eq, Structural, Debug)]
pub struct MatvecDispatch {
    pub kernel: MatvecKernel,
    pub input: MatvecInput,
    pub n: u32,
    pub k: u32,
    pub groups: u32,
}

/// The compute pipelines the matvec stage may bind, in one bundle.
pub struct Pipelines<'a> {
    pub q4k_matvec: &'a Arc<ComputePipeline>,
    pub q6k_matvec: &'a Arc<ComputePipeline>,
    pub q4_vecmat: &'a Arc<ComputePipeline>,
}

impl<'a> Pipelines<'a> {
    /// The pipeline that runs `kernel`.
    pub fn select(&self, kernel: MatvecKernel) -> (p: &'a Arc<ComputePipeline>)
        ensures
            p == match kernel {
                MatvecKernel::Q4kMatvec => self.q4k_matvec,
                MatvecKernel::Q6kMatvec => self.q6k_matvec,
                MatvecKernel::Q4Vecmat => self.q4_vecmat,
            },
    {
        match kernel {
            MatvecKernel::Q4kMatvec => self.q4k_matvec,
            MatvecKernel::Q6kMatvec => self.q6k_matvec,
            MatvecKernel::Q4Vecmat => self.q4_vecmat,
        }
    }
}

/// The dispatch `encode` emits for `out[num_rows] = W[num_rows x hidden] . x`:
/// none for the float formats, which are handled elsewhere.
pub open spec fn spec_encode(format: QuantFormat, num_rows: usize, hidden: usize) -> Option<MatvecDispatch> {
    let n = num_rows as u32;
    let k = hidden as u32;
    let groups = ceil_div(n as int, MATVEC_ROWS_PER_TG as int) as u32;
    match format {
        QuantFormat::Q4_KF | QuantFormat::Q4_K => Some(
            MatvecDispatch { kernel: MatvecKernel::Q4kMatvec, input: MatvecInput::F32, n, k, groups },
        ),
        QuantFormat::Q6_K => Some(
            MatvecDispatch { kernel: MatvecKernel::Q6kMatvec, input: MatvecInput::F32, n, k, groups },
        ),
        QuantFormat::Q4_0 | QuantFormat::Q8_0 => Some(
            MatvecDispatch { kernel: MatvecKernel::Q4Vecmat, input: MatvecInput::Q8, n, k, groups },
        ),
        QuantFormat::BF16 | QuantFormat::F16 | QuantFormat::F32 => None,
    }
}

/// Dispatch of a matvec that reads an f32 input vector.
fn dispatch_vulkan(kernel: MatvecKernel, n: u32, k: u32, rows_per_tg: u32) -> (d: MatvecDispatch)
    requires
        rows_per_tg > 0,
    ensures
        d == (MatvecDispatch {
            kernel,
            input: MatvecInput::F32,
            n,
            k,
            groups: ceil_div(n as int, rows_per_tg as int) as u32,
        }),
{
    let groups = div_ceil_u32(n, rows_per_tg);
    MatvecDispatch { kernel, input: MatvecInput::F32, n, k, groups }
}

/// Dispatch of a matvec that reads a Q8 input vector and its scales.
fn dispatch_q8_input(kernel: MatvecKernel, n: u32, k: u32, rows_per_tg: u32) -> (d: MatvecDispatch)
    requires
        rows_per_tg > 0,
    ensures
        d == (MatvecDispatch {
            kernel,
            input: MatvecInput::Q8,
            n,
            k,
            groups: ceil_div(n as int, rows_per_tg as int) as u32,
        }),
{
    let groups = div_ceil_u32(n, rows_per_tg);
    MatvecDispatch { kernel, input: MatvecInput::Q8, n, k, groups }
}

/// Routes `out[num_rows] = W[num_rows x hidden] . x` by weight format.
pub fn encode(format: QuantFormat, num_rows: usize, hidden: usize) -> (d: Option<MatvecDispatch>)
    ensures
        d == spec_encode(format, num_rows, hidden),
        d matches Some(m) ==> m.groups * MATVEC_ROWS_PER_TG >= m.n,
        d is None <==> (format == QuantFormat::BF16 || format == QuantFormat::F16 || format == QuantFormat::F32),
        d matches Some(m) ==> {
            &&& (m.kernel == MatvecKernel::Q4kMatvec <==> (format == QuantFormat::Q4_K || format
                == QuantFormat::Q4_KF))
            &&& (m.kernel == MatvecKernel::Q6kMatvec <==> format == QuantFormat::Q6_K)
            &&& (m.kernel == MatvecKernel::Q4Vecmat <==> (format == QuantFormat::Q4_0 || format
                == QuantFormat::Q8_0))
            &&& (m.input == MatvecInput::Q8 <==> (format == QuantFormat::Q4_0 || format == QuantFormat::Q8_0))
        },
{
    proof {
        lemma_encode_routes_by_format(format, num_rows, hidden);
    }
    let n = num_rows as u32;
    let k = hidden as u32;
    proof {
        crate::geometry::lemma_ceil_div_covers(n as int, MATVEC_ROWS_PER_TG as int);
    }
    match format {
        QuantFormat::Q4_KF | QuantFormat::Q4_K => {
            Some(dispatch_vulkan(MatvecKernel::Q4kMatvec, n, k, MATVEC_ROWS_PER_TG))
        },
        QuantFormat::Q6_K => {
            Some(dispatch_vulkan(MatvecKernel::Q6kMatvec, n, k, MATVEC_ROWS_PER_TG))
        },
        QuantFormat::Q4_0 | QuantFormat::Q8_0 => {
            Some(dispatch_q8_input(MatvecKernel::Q4Vecmat, n, k, MATVEC_ROWS_PER_TG))
        },
        QuantFormat::BF16 | QuantFormat::F16 | QuantFormat::F32 => None,
    }
}

/// Routing by weight format: the float formats dispatch nothing; Q4_K and
/// Q4_KF go to the Q4_K shader and Q6_K to the Q6_K shader, both reading
/// the f32 input; Q4_0 and Q8_0 go to the Q4 vecmat shader reading the Q8
/// input. Every dispatch has push constants `num_rows`, `hidden` and enough
/// workgroups of `MATVEC_ROWS_PER_TG` rows to cover all rows.
pub proof fn lemma_encode_routes_by_format(format: QuantFormat, num_rows: usize, hidden: usize)
    ensures
        spec_encode(format, num_rows, hidden) is None <==> (format == QuantFormat::BF16 || format == QuantFormat::F16
            || format == QuantFormat::F32),
        spec_encode(format, num_rows, hidden) matches Some(d) ==> {
            &&& d.n == num_rows as u32
            &&& d.k == hidden as u32
            &&& d.groups * 4 >= d.n
            &&& (d.groups - 1) * 4 < d.n || d.n == 0
            &&& (d.kernel == MatvecKernel::Q4kMatvec <==> (format == QuantFormat::Q4_K || format
                == QuantFormat::Q4_KF))
            &&& (d.kernel == MatvecKernel::Q6kMatvec <==> format == QuantFormat::Q6_K)
            &&& (d.kernel == MatvecKernel::Q4Vecmat <==> (format == QuantFormat::Q4_0 || format
                == QuantFormat::Q8_0))
            &&& (d.input == MatvecInput::Q8 <==> (format == QuantFormat::Q4_0 || format == QuantFormat::Q8_0))
        },
        spec_encode(QuantFormat::Q4_0, num_rows, hidden) == spec_encode(QuantFormat::Q8_0, num_rows, hidden),
        spec_encode(QuantFormat::Q4_K, num_rows, hidden) == spec_encode(QuantFormat::Q4_KF, num_rows, hidden),
{
    crate::geometry::lemma_ceil_div_covers((num_rows as u32) as int, 4);
}

} // verus!
