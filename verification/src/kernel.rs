//! Compute kernels: the traits kernels declare their geometry with, and the
//! handle that carries a compiled pipeline with its dispatch geometry.
use vstd::prelude::*;
use std::sync::Arc;
use vulkano::pipeline::ComputePipeline;

verus! {

#[verifier::external_type_specification]
#[verifier::external_body]
pub struct ExComputePipeline(ComputePipeline);

/// A flat-dispatch compute kernel driven by `dispatch` with fixed geometry.
pub trait ShaderKernel {
    /// Shader entry point name (usually "main").
    const KERNEL_NAME: &'static str = "main";
}

/// A tiled compute kernel that needs explicit workgroup sizes for dispatch.
pub trait TiledKernel {
    /// Shader entry point name.
    const KERNEL_NAME: &'static str = "main";
    /// Output rows the kernel covers per threadgroup.
    const ROWS_PER_TG: u32;
    /// Threads per threadgroup (workgroup size X * Y * Z).
    const THREADS_PER_TG: u32;
}

/// Handle to a compiled compute kernel.
#[derive(Clone)]
pub struct KernelHandle {
    /// The underlying pipeline.
    pub pipeline: Arc<ComputePipeline>,
    /// Output rows the kernel covers per threadgroup.
    pub rows_per_tg: u32,
    /// Threads per threadgroup the kernel expects.
    pub threads_per_tg: u32,
    /// Shader entry point name.
    pub name: &'static str,
}

impl KernelHandle {
    /// A handle for a flat-dispatch kernel: one row and one thread per threadgroup.
    pub fn new(pipeline: Arc<ComputePipeline>, name: &'static str) -> (h: Self)
        ensures
            h.pipeline == pipeline,
            h.rows_per_tg == 1,
            h.threads_per_tg == 1,
            h.name == name,
    {
        Self { pipeline, rows_per_tg: 1, threads_per_tg: 1, name }
    }

    /// A handle with explicit dispatch geometry.
    pub fn with_geometry(
        pipeline: Arc<ComputePipeline>,
        name: &'static str,
        rows_per_tg: u32,
        threads_per_tg: u32,
    ) -> (h: Self)
        ensures
            h.pipeline == pipeline,
            h.rows_per_tg == rows_per_tg,
            h.threads_per_tg == threads_per_tg,
            h.name == name,
    {
        Self { pipeline, name, rows_per_tg, threads_per_tg }
    }
}

} // verus!
