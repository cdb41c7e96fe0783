pub mod quant_matvec;
pub mod ffn;
pub mod residual;
pub mod input_norm;
pub mod layer_scalar;
pub mod qk_norm;
pub mod rope;
pub mod attention;
pub mod o_proj;
pub mod qkv_proj;
