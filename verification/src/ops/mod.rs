pub mod f32_ops;
pub mod backend;
pub mod q4k_matvec;
pub mod q4_vecmat;
pub mod q4_matvec;
pub mod q8_quantize;
pub mod rms_norm;
pub mod rope;
pub mod turboquant;
pub mod q4_batched;
pub mod full_layer;
pub mod full_pipeline;
