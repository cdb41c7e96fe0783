//! f32 matrix multiplication: CPU-or-GPU routing and the SGEMM dispatch.
use vstd::prelude::*;
use crate::geometry::{ceil_div, div_ceil_usize};
use crate::kernel::KernelHandle;

verus! {

/// Edge of the square output tile one SGEMM workgroup computes.
pub const SGEMM_TILE: usize = 32;

/// The two SGEMM kernels: `C = A . B` and `C = A . B^T`.
pub struct F32Ops {
    pub sgemm_pipeline: KernelHandle,
    pub transb_pipeline: KernelHandle,
}

/// One SGEMM dispatch for `C[m x n] = A[m x k] . B`: push constants `m`,
/// `n`, `k`, the output length (f32 values and bytes) and the tile grid.
#[derive(Clone, Copy, PartialEq, Eq, Structural, Debug)]
pub struct SgemmDispatch {
    pub m: u32,
    pub n: u32,
    pub k: u32,
    pub out_len: usize,
    pub out_bytes: usize,
    pub groups_x: u32,
    pub groups_y: u32,
}

/// The SGEMM dispatch of an `m x k` by `k x n` product.
pub open spec fn spec_sgemm(m: usize, n: usize, k: usize) -> SgemmDispatch {
    SgemmDispatch {
        m: m as u32,
        n: n as u32,
        k: k as u32,
        out_len: (m * n) as usize,
        out_bytes: (m * n * 4) as usize,
        groups_x: ceil_div(n as int, 32) as u32,
        groups_y: ceil_div(m as int, 32) as u32,
    }
}

/// Where a matmul runs: on the CPU (below the FLOP threshold) or as an SGEMM
/// dispatch on the given kernel.
pub enum MatmulRoute<'a> {
    Cpu,
    Gpu(&'a KernelHandle, SgemmDispatch),
}

/// Whether the product needs `2 * m * n * k` FLOPs at least the threshold.
pub open spec fn spec_on_gpu(m: usize, n: usize, k: usize, flop_threshold: usize) -> bool {
    !(2 * m * n * k < flop_threshold)
}

/// The FLOP count `2 * m * n * k` and each partial product on the way fit in
/// a `usize`; so does the output size in bytes when the product goes to the GPU.
pub open spec fn matmul_sizes_fit(m: usize, n: usize, k: usize, flop_threshold: usize) -> bool {
    &&& 2 * m <= usize::MAX
    &&& 2 * m * n <= usize::MAX
    &&& 2 * m * n * k <= usize::MAX
    &&& spec_on_gpu(m, n, k, flop_threshold) ==> out_size_fits(m, n)
}

/// The output length and byte size of an `m x n` result fit in a `usize`.
pub open spec fn out_size_fits(m: usize, n: usize) -> bool {
    &&& m * n <= usize::MAX
    &&& m * n * 4 <= usize::MAX
}

impl F32Ops {
    /// Geometry of the SGEMM dispatch for `C[m x n]`.
    pub fn dispatch_internal(m: usize, n: usize, k: usize) -> (d: SgemmDispatch)
        requires
            out_size_fits(m, n),
        ensures
            d == spec_sgemm(m, n, k),
            n <= u32::MAX ==> d.groups_x * 32 >= n,
            m <= u32::MAX ==> d.groups_y * 32 >= m,
    {
        proof {
            crate::geometry::lemma_ceil_div_covers(n as int, 32);
            crate::geometry::lemma_ceil_div_covers(m as int, 32);
        }
        SgemmDispatch {
            m: m as u32,
            n: n as u32,
            k: k as u32,
            out_len: m * n,
            out_bytes: m * n * 4,
            groups_x: div_ceil_usize(n, SGEMM_TILE) as u32,
            groups_y: div_ceil_usize(m, SGEMM_TILE) as u32,
        }
    }

    /// `C = A . B` on the SGEMM kernel.
    pub fn dispatch_notrans(&self, m: usize, n: usize, k: usize) -> (r: (&KernelHandle, SgemmDispatch))
        requires
            out_size_fits(m, n),
        ensures
            r.0 == &self.sgemm_pipeline,
            r.1 == spec_sgemm(m, n, k),
    {
        (&self.sgemm_pipeline, Self::dispatch_internal(m, n, k))
    }

    /// `C = A . B^T` on the transposed-B kernel.
    pub fn dispatch_transb(&self, m: usize, n: usize, k: usize) -> (r: (&KernelHandle, SgemmDispatch))
        requires
            out_size_fits(m, n),
        ensures
            r.0 == &self.transb_pipeline,
            r.1 == spec_sgemm(m, n, k),
    {
        (&self.transb_pipeline, Self::dispatch_internal(m, n, k))
    }

    /// Routes `A[m x k] . B[k x n]` (shapes as `(rows, cols)`): on the CPU
    /// when it needs fewer than `flop_threshold` FLOPs, else on the GPU.
    pub fn matmul(&self, a_shape: (usize, usize), b_shape: (usize, usize), flop_threshold: usize) -> (r:
        MatmulRoute)
        requires
            matmul_sizes_fit(a_shape.0, b_shape.1, a_shape.1, flop_threshold),
        ensures
            match r {
                MatmulRoute::Cpu => !spec_on_gpu(a_shape.0, b_shape.1, a_shape.1, flop_threshold),
                MatmulRoute::Gpu(kernel, d) => spec_on_gpu(a_shape.0, b_shape.1, a_shape.1, flop_threshold)
                    && kernel == &self.sgemm_pipeline && d == spec_sgemm(a_shape.0, b_shape.1, a_shape.1),
            },
            r is Cpu <==> 2 * a_shape.0 * b_shape.1 * a_shape.1 < flop_threshold,
            r matches MatmulRoute::Gpu(_, d) ==> d.m == a_shape.0 as u32 && d.n == b_shape.1 as u32 && d.k
                == a_shape.1 as u32,
    {
        let (m, k) = a_shape;
        let n = b_shape.1;
        if 2 * m * n * k < flop_threshold {
            return MatmulRoute::Cpu;
        }
        let (kernel, d) = self.dispatch_notrans(m, n, k);
        MatmulRoute::Gpu(kernel, d)
    }

    /// Routes `A[m x k] . B^T` with `B` of shape `n x k`.
    pub fn matmul_transb(&self, a_shape: (usize, usize), b_shape: (usize, usize), flop_threshold: usize) -> (r:
        MatmulRoute)
        requires
            matmul_sizes_fit(a_shape.0, b_shape.0, a_shape.1, flop_threshold),
        ensures
            match r {
                MatmulRoute::Cpu => !spec_on_gpu(a_shape.0, b_shape.0, a_shape.1, flop_threshold),
                MatmulRoute::Gpu(kernel, d) => spec_on_gpu(a_shape.0, b_shape.0, a_shape.1, flop_threshold)
                    && kernel == &self.transb_pipeline && d == spec_sgemm(a_shape.0, b_shape.0, a_shape.1),
            },
            r is Cpu <==> 2 * a_shape.0 * b_shape.0 * a_shape.1 < flop_threshold,
            r matches MatmulRoute::Gpu(_, d) ==> d.m == a_shape.0 as u32 && d.n == b_shape.0 as u32 && d.k
                == a_shape.1 as u32,
    {
        let (m, k) = a_shape;
        let n = b_shape.0;
        if 2 * m * n * k < flop_threshold {
            return MatmulRoute::Cpu;
        }
        let (kernel, d) = self.dispatch_transb(m, n, k);
        MatmulRoute::Gpu(kernel, d)
    }
}

/// The routing threshold: a product goes to the GPU exactly when its
/// `2 * m * n * k` FLOPs reach the threshold, so a product never goes to the
/// GPU while a larger one of the same threshold stays on the CPU.
pub proof fn lemma_on_gpu_threshold(m: usize, n: usize, k: usize, flop_threshold: usize, m2: usize, n2: usize, k2: usize)
    ensures
        spec_on_gpu(m, n, k, flop_threshold) <==> 2 * m * n * k >= flop_threshold,
        spec_on_gpu(m, n, k, flop_threshold) && 2 * m * n * k <= 2 * m2 * n2 * k2 ==> spec_on_gpu(
            m2,
            n2,
            k2,
            flop_threshold,
        ),
        spec_on_gpu(m, n, k, 0),
{
}

/// The SGEMM of an `m x k` by `k x n` product: push constants `m`, `n`, `k`
/// in that order, an `m x n` f32 output, and a grid of 32 x 32 output tiles
/// whose x count covers the `n` columns and whose y count covers the `m`
/// rows, with no tile wholly past them.
pub proof fn lemma_sgemm_grid(m: usize, n: usize, k: usize)
    requires
        out_size_fits(m, n),
        m <= u32::MAX,
        n <= u32::MAX,
    ensures
        spec_sgemm(m, n, k).m == m && spec_sgemm(m, n, k).n == n && spec_sgemm(m, n, k).k == k as u32,
        spec_sgemm(m, n, k).out_len == m * n,
        spec_sgemm(m, n, k).out_bytes == m * n * 4,
        spec_sgemm(m, n, k).groups_x * 32 >= n,
        n == 0 || (spec_sgemm(m, n, k).groups_x - 1) * 32 < n,
        spec_sgemm(m, n, k).groups_y * 32 >= m,
        m == 0 || (spec_sgemm(m, n, k).groups_y - 1) * 32 < m,
{
    crate::geometry::lemma_ceil_div_covers(n as int, 32);
    crate::geometry::lemma_ceil_div_covers(m as int, 32);
}

} // verus!
