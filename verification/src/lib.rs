pub mod device;
pub mod geometry;
pub mod kernel;
pub mod kv_cache;
pub mod quant;
pub mod stages;
pub mod ops;
