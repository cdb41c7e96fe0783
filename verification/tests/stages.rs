use larql_compute::geometry::Span;
use larql_compute::quant::QuantFormat;
use larql_compute::stages::attention;
use larql_compute::stages::ffn::{encode_gated, encode_standard, Activation, FfnStrides};
use larql_compute::stages::input_norm::{encode_f32, encode_q8};
use larql_compute::stages::layer_scalar;
use larql_compute::stages::o_proj;
use larql_compute::stages::qk_norm::{_tg_width, encode_qk_norm, encode_v_norm};
use larql_compute::stages::qkv_proj::{encode_fused_f32, encode_per_proj, FusedQkvKernel, Proj};
use larql_compute::stages::quant_matvec::{encode, MatvecInput, MatvecKernel};
use larql_compute::stages::residual::{encode_post_attn, encode_post_ffn, NORM_WORKGROUPS, RESIDUAL_MODE_ADD};
use larql_compute::stages::rope;

fn span(start: u64, end: u64) -> Span {
    Span { start, end }
}

#[test]
fn matvec_routes_by_format() {
    let d = encode(QuantFormat::Q4_K, 10, 2560).unwrap();
    assert_eq!((d.kernel, d.input, d.n, d.k, d.groups), (MatvecKernel::Q4kMatvec, MatvecInput::F32, 10, 2560, 3));
    assert_eq!(encode(QuantFormat::Q4_KF, 8, 64).unwrap().kernel, MatvecKernel::Q4kMatvec);
    let d = encode(QuantFormat::Q6_K, 8, 64).unwrap();
    assert_eq!((d.kernel, d.input, d.groups), (MatvecKernel::Q6kMatvec, MatvecInput::F32, 2));
    let d = encode(QuantFormat::Q4_0, 9, 64).unwrap();
    assert_eq!((d.kernel, d.input, d.groups), (MatvecKernel::Q4Vecmat, MatvecInput::Q8, 3));
    assert_eq!(encode(QuantFormat::Q8_0, 9, 64).unwrap().input, MatvecInput::Q8);
}

#[test]
fn matvec_float_formats_dispatch_nothing() {
    assert!(encode(QuantFormat::BF16, 8, 64).is_none());
    assert!(encode(QuantFormat::F16, 8, 64).is_none());
    assert!(encode(QuantFormat::F32, 8, 64).is_none());
}

#[test]
fn activation_modes() {
    assert_eq!(Activation::SiLU.mode(), 0);
    assert_eq!(Activation::GeluTanh.mode(), 1);
}

fn strides() -> FfnStrides {
    FfnStrides { h_stride_bytes: 100, inter_stride_bytes: 300, q8_stride_bytes: 100, q8s_stride_bytes: 4 }
}

#[test]
fn gated_ffn_plan() {
    let plan = encode_gated(
        QuantFormat::Q4_K,
        QuantFormat::Q4_K,
        QuantFormat::Q6_K,
        Activation::GeluTanh,
        2,
        256,
        64,
        strides(),
    );
    assert_eq!(plan.gate_up.len(), 2);
    let g1 = plan.gate_up[1].gate;
    assert_eq!(g1.input, span(100, 164));
    assert_eq!(g1.out, span(300, 556));
    assert_eq!(g1.q8, span(100, 164));
    assert_eq!(g1.q8s, span(4, 6));
    let d = g1.dispatch.unwrap();
    assert_eq!((d.n, d.k, d.groups), (256, 64, 64));
    assert_eq!(plan.activation.total, 512);
    assert_eq!(plan.activation.mode, 1);
    assert_eq!(plan.activation.groups, 2);
    let down = plan.down[1];
    assert_eq!(down.input, span(300, 556));
    assert_eq!(down.out, span(100, 164));
    let d = down.dispatch.unwrap();
    assert_eq!((d.kernel, d.n, d.k, d.groups), (MatvecKernel::Q6kMatvec, 64, 256, 16));
}

#[test]
fn gated_ffn_with_float_down_dispatches_no_down_matvec() {
    let plan = encode_gated(QuantFormat::Q4_0, QuantFormat::Q8_0, QuantFormat::F32, Activation::SiLU, 1, 64, 64, strides());
    assert_eq!(plan.gate_up[0].gate.dispatch.unwrap().input, MatvecInput::Q8);
    assert!(plan.down[0].dispatch.is_none());
    assert_eq!(plan.activation.mode, 0);
}

#[test]
fn standard_ffn_plan() {
    let plan = encode_standard(QuantFormat::Q4_K, QuantFormat::Q4_K, Activation::SiLU, 3, 100, 64, strides());
    assert_eq!(plan.up.len(), 3);
    assert_eq!(plan.down.len(), 3);
    assert_eq!(plan.up[2].out, span(600, 700));
    assert_eq!(plan.activation.total, 300);
    assert_eq!(plan.activation.groups, 2);
}

#[test]
fn ffn_without_positions() {
    let plan = encode_gated(QuantFormat::Q4_K, QuantFormat::Q4_K, QuantFormat::Q4_K, Activation::SiLU, 0, 64, 64, strides());
    assert!(plan.gate_up.is_empty() && plan.down.is_empty());
    assert_eq!((plan.activation.total, plan.activation.groups), (0, 0));
}

#[test]
fn post_attn_pre_norm_plan() {
    let plan = encode_post_attn(2, 1000, false, true, 4000, 1000, 124);
    assert_eq!(plan.len, 1000);
    assert_eq!(plan.residual_groups, 4);
    assert_eq!((plan.residual_mode, plan.norm_groups), (RESIDUAL_MODE_ADD, NORM_WORKGROUPS));
    assert_eq!((RESIDUAL_MODE_ADD, NORM_WORKGROUPS), (1, 1));
    assert_eq!(plan.q8_groups, 32);
    let p1 = plan.positions[1];
    assert_eq!(p1.span, span(4000, 8000));
    assert_eq!(p1.post_norm_scratch, None);
    let q8 = p1.q8.unwrap();
    assert_eq!(q8.q8, span(1000, 2000));
    assert_eq!(q8.q8s, span(124, 248));
}

#[test]
fn post_attn_post_norm_without_q8() {
    let plan = encode_post_attn(1, 100, true, false, 400, 0, 0);
    assert_eq!(plan.residual_groups, 1);
    assert_eq!(plan.positions[0].post_norm_scratch, Some(400));
    assert!(plan.positions[0].q8.is_none());
}

#[test]
fn post_ffn_norm_needs_both_flag_and_weight() {
    let with = encode_post_ffn(2, 64, true, true, 256);
    assert_eq!(with.positions[1].span, span(256, 512));
    assert_eq!(with.positions[1].post_norm_scratch, Some(256));
    assert_eq!(with.residual_groups, 1);
    assert_eq!((with.residual_mode, with.norm_groups), (1, 1));
    assert_eq!(encode_post_ffn(1, 64, true, false, 256).positions[0].post_norm_scratch, None);
    assert_eq!(encode_post_ffn(1, 64, false, true, 256).positions[0].post_norm_scratch, None);
}

#[test]
fn input_norm_plans() {
    let d = encode_f32(10, 20, 8);
    assert_eq!((d.input, d.output, d.len), (span(10, 18), span(20, 28), 8));
    let p = encode_q8(64, 32, 2, 64);
    assert_eq!(p.scratch_len, 64);
    assert_eq!(p.norm.input, span(64, 128));
    assert_eq!(p.norm.output, span(0, 64));
    assert_eq!(p.q8, span(32, 96));
    assert_eq!(p.q8s, span(2, 4));
    assert_eq!((p.len, p.groups), (64, 2));
}

#[test]
fn layer_scalar_zero_does_nothing() {
    assert!(layer_scalar::encode(4, 64, true).is_none());
}

#[test]
fn layer_scalar_plan() {
    let p = layer_scalar::encode(3, 300, false).unwrap();
    assert_eq!((p.len, p.mode, p.groups), (300, 2, 2));
    assert_eq!(p.spans, vec![span(0, 300), span(300, 600), span(600, 900)]);
}

#[test]
fn qk_and_v_norm_plans() {
    assert_eq!(_tg_width(256), 1);
    let p = encode_qk_norm(2, 8, 2, 16);
    assert_eq!((p.head_dim, p.q_heads, p.k_heads), (16, 8, 2));
    assert_eq!(p.positions[1].q, span(128, 256));
    assert_eq!(p.positions[1].k, span(32, 64));
    let v = encode_v_norm(3, 2, 16);
    assert_eq!(v.heads, 2);
    assert_eq!(v.spans[2], span(64, 96));
}

#[test]
fn stage_rope_plan() {
    let p = rope::encode(2, 8, 2, 128, 0);
    assert_eq!(p.rotary_dim, 0);
    assert_eq!(p.groups_x, 2);
    assert_eq!(p.groups_y, 2);
    assert_eq!(p.mode, 1);
    assert_eq!(p.positions[1].pos, 1);
    assert_eq!(p.positions[1].q, span(1024, 2048));
    assert_eq!(p.positions[1].k, span(256, 512));
    let partial = rope::encode(1, 8, 8, 256, 64);
    assert_eq!(partial.rotary_dim, 64);
    assert_eq!(partial.groups_x, 1);
    assert_eq!(partial.groups_y, 2);
}

#[test]
fn rope_zero_rotary_dim_rotates_whole_head() {
    let zero = rope::encode(3, 8, 2, 128, 0);
    let full = rope::encode(3, 8, 2, 128, 128);
    assert_eq!((zero.rotary_dim, full.rotary_dim), (0, 128));
    assert_eq!((zero.groups_x, zero.groups_y), (full.groups_x, full.groups_y));
    assert_eq!(zero.positions, full.positions);
    assert_eq!((zero.head_dim, zero.num_q, zero.num_kv, zero.mode), (full.head_dim, full.num_q, full.num_kv, full.mode));
}

#[test]
fn attention_stage_dispatch() {
    let d = attention::encode(5, 8, 2, 128, 64);
    assert_eq!((d.t, d.head_dim, d.num_q, d.num_kv, d.rotary_dim, d.window_size), (5, 128, 8, 2, 64, 0));
    assert_eq!((d.groups_x, d.groups_y), (8, 5));
}

#[test]
fn o_proj_f32_input_formats_skip_quantisation() {
    let p = o_proj::encode(QuantFormat::Q6_K, 0, 0, 0, 2560, 2048, 2560);
    assert!(p.quantize.is_none());
    assert_eq!(p.attn_in, span(0, 2048));
    assert_eq!(p.out, span(2560, 5120));
    let d = p.matvec.unwrap();
    assert_eq!((d.n, d.k, d.groups), (2560, 2048, 640));
}

#[test]
fn o_proj_q8_formats_quantise_first() {
    let p = o_proj::encode(QuantFormat::Q8_0, 0, 4096, 128, 0, 2048, 2560);
    let q = p.quantize.unwrap();
    assert_eq!((q.len, q.groups), (2048, 64));
    assert_eq!(p.q8, span(4096, 6144));
    assert_eq!(p.q8s, span(128, 192));
    assert_eq!(p.matvec.unwrap().input, MatvecInput::Q8);
    let f = o_proj::encode(QuantFormat::F16, 0, 0, 0, 0, 64, 64);
    assert!(f.quantize.is_some() && f.matvec.is_none());
}

#[test]
fn fused_qkv_dispatch() {
    assert_eq!(FusedQkvKernel::Q4k.rows_per_tg(), 8);
    assert_eq!(FusedQkvKernel::Q4kQ6k.rows_per_tg(), 8);
    let d = encode_fused_f32(FusedQkvKernel::Q4k, 0, 0, 0, 0, 2048, 512, 2560);
    assert_eq!((d.q_rows, d.k_rows, d.v_rows, d.cols, d.mode, d.groups), (2048, 512, 512, 2560, 0, 384));
    let d = encode_fused_f32(FusedQkvKernel::Q4kQ6k, 10, 20, 30, 40, 3, 2, 5);
    assert_eq!(d.groups, 1);
    assert_eq!((d.input, d.q, d.k, d.v), (span(10, 15), span(20, 23), span(30, 32), span(40, 42)));
}

#[test]
fn per_projection_qkv_calls() {
    let projections = [
        Proj { format: QuantFormat::Q4_K, w_buf: 'q', out_buf: 0u8, out_off: 0, rows: 16 },
        Proj { format: QuantFormat::Q4_K, w_buf: 'k', out_buf: 1u8, out_off: 16, rows: 8 },
        Proj { format: QuantFormat::Q6_K, w_buf: 'v', out_buf: 2u8, out_off: 24, rows: 8 },
    ];
    let calls = encode_per_proj(64, 128, 4, projections, 64);
    assert_eq!(calls[0].w_buf, 'q');
    assert_eq!(calls[2].out_buf, 2);
    assert_eq!(calls[1].out, span(16, 24));
    assert_eq!(calls[2].f32_in, span(64, 128));
    assert_eq!(calls[2].q8, span(128, 192));
    assert_eq!(calls[2].q8s, span(4, 6));
    assert_eq!(calls[2].dispatch.unwrap().kernel, MatvecKernel::Q6kMatvec);
    assert_eq!(calls[0].dispatch.unwrap().groups, 4);
}
