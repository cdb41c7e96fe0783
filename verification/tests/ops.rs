use larql_compute::kv_cache::{KVCache, LayerKVCache};
use larql_compute::ops::backend;
use larql_compute::ops::f32_ops::F32Ops;
use std::cell::{Cell, RefCell};

use larql_compute::ops::full_layer::{self, FullLayerPlan, LayerKernelRows};
use larql_compute::ops::full_pipeline::{
    dispatch_full_pipeline, dispatch_layer, pipeline_output, LayerInput, LayerShape, PipelineLayerPlan, PipelineOutput,
    PipelineRun, PostAttnNormWeight,
};
use larql_compute::ops::q4_batched::{multi_layer_ffn, pair_batch, XRange};
use larql_compute::ops::{q4_matvec, q4_vecmat, q4k_matvec, q8_quantize, rms_norm, rope, turboquant};

fn alloc_buf(n: usize) -> Option<usize> {
    Some(n)
}

#[test]
fn sgemm_geometry() {
    let d = F32Ops::dispatch_internal(100, 65, 7);
    assert_eq!((d.m, d.n, d.k), (100, 65, 7));
    assert_eq!((d.out_len, d.out_bytes), (6500, 26000));
    assert_eq!((d.groups_x, d.groups_y), (3, 4));
}

#[test]
fn backend_one_shot_geometry() {
    assert_eq!(backend::rms_norm(8), 8);
    assert_eq!(backend::silu(1000), 4);
    assert_eq!(backend::silu(256), 1);
    assert_eq!(backend::silu(0), 0);
    assert_eq!(backend::rope(128, 8, 2), 3);
    assert_eq!(backend::attn_fused(16), 16);
}

#[test]
fn f32_gemv_checks_input_length() {
    assert!(backend::f32_gemv(4, 3, 2).is_none());
    let d = backend::f32_gemv(4, 3, 3).unwrap();
    assert_eq!((d.n, d.k, d.out_len, d.out_bytes, d.groups), (4, 3, 4, 16, 4));
}

#[test]
fn thresholded_gemv_leaves_small_products_to_the_cpu() {
    assert_eq!(backend::f32_gemv_thresholded(64, 64, 64, 1 << 20), None);
    assert_eq!(backend::f32_gemv_thresholded(1024, 1024, 1024, 1 << 20), Some((1024, 1024)));
    assert_eq!(backend::f32_gemv_thresholded(1024, 1024, 1000, 0), None);
    assert_eq!(backend::f32_gemv_thresholded(512, 1024, 1024, 1 << 20), Some((512, 1024)));
}

#[test]
fn backend_q4k_matvec_pads_weights() {
    let p = backend::q4k_matvec(&[1, 2, 3, 4, 5, 6], 256, 10, 256);
    assert_eq!(p.weights, vec![1, 2, 3, 4, 5, 6, 0, 0]);
    assert_eq!((p.n, p.k, p.x_bytes, p.out_len, p.out_bytes, p.groups), (10, 256, 1024, 10, 40, 10));
}

#[test]
fn q4k_matvec_geometry() {
    let d = q4k_matvec::dispatch(257, 1024);
    assert_eq!((d.out_len, d.out_bytes, d.groups), (257, 1028, 2));
}

#[test]
fn q4_vecmat_geometry() {
    let d = q4_vecmat::dispatch(10, 512);
    assert_eq!((d.n, d.k, d.out_len, d.out_bytes, d.groups), (10, 512, 512, 2048, 3));
    assert_eq!(q4_vecmat::dispatch(10, 100).groups, 1);
}

#[test]
fn q4_matvec_packs_input() {
    let p = q4_matvec::dispatch(&[1, 0, 0, 0, -1, -1, -1, -1], 10, 8, 4);
    assert_eq!(p.x_words, vec![1, 0xffff_ffff]);
    assert_eq!((p.n, p.k, p.out_len, p.out_bytes, p.groups), (10, 8, 10, 40, 2));
}

#[test]
fn q8_quantize_geometry() {
    let d = q8_quantize::dispatch(100);
    assert_eq!((d.num_blocks, d.q8_len, d.scales_len, d.scales_bytes, d.groups), (3, 100, 3, 12, 3));
}

#[test]
fn rms_norm_op_geometry() {
    let d = rms_norm::dispatch(2560);
    assert_eq!((d.out_len, d.out_bytes, d.groups), (2560, 10240, 1));
}

#[test]
fn rope_op_rotated_dims() {
    let full = rope::dispatch(128, 0, 8, 2);
    assert_eq!((full.rotary_dim, full.groups_x, full.groups_y), (128, 10, 64));
    let partial = rope::dispatch(128, 32, 8, 2);
    assert_eq!((partial.rotary_dim, partial.groups_y), (32, 16));
    let capped = rope::dispatch(128, 512, 1, 1);
    assert_eq!(capped.rotary_dim, 128);
}

#[test]
fn turboquant_geometry() {
    let e = turboquant::encode_dispatch(128, 4);
    assert_eq!((e.norms_len, e.norms_bytes, e.packed_len, e.groups), (4, 16, 256, 4));
    let d = turboquant::decode_dispatch(128, 4);
    assert_eq!((d.output_len, d.output_bytes, d.groups), (512, 2048, 4));
}

#[test]
fn pair_batch_plan() {
    let p = pair_batch(300, 3, 64, 100, 8);
    assert_eq!(p.len(), 3);
    assert_eq!(p[1].x, XRange { start: 100, end: 200 });
    assert_eq!(p[2].x, XRange { start: 200, end: 300 });
    assert_eq!((p[0].n, p[0].k, p[0].groups, p[0].out_len, p[0].out_bytes), (64, 100, 8, 64, 256));
}

#[test]
fn pair_batch_without_positions_needs_no_kernel_rows() {
    assert!(pair_batch(0, 0, 64, 100, 0).is_empty());
}

#[test]
fn multi_layer_ffn_chains_layers() {
    let p = multi_layer_ffn(3, 1024, 256, 8, 4);
    let l0 = p.layers[0];
    assert_eq!((l0.inter_bytes, l0.hidden_bytes, l0.q8_bytes, l0.q8s_bytes), (4096, 1024, 256, 32));
    assert_eq!((l0.gate_up_n, l0.gate_up_k, l0.gate_up_groups), (1024, 256, 128));
    assert_eq!((l0.geglu_n, l0.geglu_groups), (1024, 4));
    assert_eq!((l0.down_n, l0.down_k, l0.down_groups), (256, 1024, 64));
    assert_eq!(l0.q8_in, 0);
    let r = l0.requantize.unwrap();
    assert_eq!((r.into, r.n, r.groups), (1, 256, 1));
    assert_eq!(p.layers[1].q8_in, 1);
    assert_eq!(p.layers[1].requantize.unwrap().into, 2);
    assert_eq!(p.layers[2].requantize, None);
    assert_eq!(p.result, Some(2));
}

#[test]
fn multi_layer_ffn_empty_stack_has_no_result() {
    let p = multi_layer_ffn(0, 1024, 256, 0, 0);
    assert!(p.layers.is_empty());
    assert_eq!(p.result, None);
}

fn rows() -> LayerKernelRows {
    LayerKernelRows { sgemm: 4, q4: 8, q4_f32: 8 }
}

#[test]
fn full_layer_plan() {
    let mut kv = LayerKVCache::new(&alloc_buf, 64, 2, 16).unwrap();
    kv.advance(10);
    let p = full_layer::dispatch(&kv, 3, 256, 4, 2, 16, 1024, rows());
    assert_eq!(p.buffers.q_bytes, 3 * 4 * 16 * 4);
    assert_eq!(p.buffers.kv_bytes, 3 * 2 * 16 * 4);
    assert_eq!(p.buffers.o_out_bytes, 3 * 256 * 4);
    assert_eq!(p.buffers.q8_s_bytes, 32);
    assert_eq!((p.q_proj.m, p.q_proj.n, p.q_proj.k, p.q_proj.groups_x, p.q_proj.groups_y), (3, 64, 256, 16, 3));
    assert_eq!((p.k_proj.n, p.k_proj.groups_x), (32, 8));
    assert_eq!((p.o_proj.n, p.o_proj.k, p.o_proj.groups_x), (256, 64, 64));
    assert_eq!((p.attn.t, p.attn.rotary_dim, p.attn.groups_x, p.attn.groups_y), (13, 16, 4, 1));
    assert_eq!((p.q8.n, p.q8.groups), (256, 1));
    assert_eq!((p.gate_up.n, p.gate_up.k, p.gate_up.groups), (1024, 256, 128));
    assert_eq!((p.geglu.n, p.geglu.groups), (1024, 4));
    assert_eq!((p.down.n, p.down.k, p.down.groups), (256, 1024, 32));
    kv.advance(3);
    assert_eq!(kv.current_len as u32, p.attn.t);
}

fn shape(runnable: bool) -> LayerShape {
    LayerShape {
        num_q_heads: 4,
        num_kv_heads: 2,
        head_dim: 16,
        attn_weights_f32: true,
        has_post_attn_norm: false,
        has_q_norm: runnable,
        has_k_norm: true,
    }
}

#[test]
fn pipeline_layer_plan() {
    let kv = LayerKVCache::new(&alloc_buf, 64, 2, 16).unwrap();
    let p = dispatch_layer(&kv, 1, &shape(true), 256, 1024, 2, rows()).unwrap();
    assert_eq!(p.input, LayerInput::PreviousLayer);
    assert_eq!(p.post_attn_norm, PostAttnNormWeight::Input);
    assert_eq!(p.norm_len, 512);
    assert_eq!(p.buffers.h_bytes, 2048);
    assert_eq!(p.buffers.q8_x_bytes, 512);
    assert_eq!(p.buffers.q8_s_bytes, 64);
    assert_eq!((p.residual.len, p.residual.mode, p.residual.groups), (512, 1, 3));
    assert_eq!((p.q8.n, p.q8.groups), (512, 16));
    assert_eq!(p.attn.t, 2);
    assert!(dispatch_layer(&kv, 0, &shape(false), 256, 1024, 2, rows()).is_none());
    let mut s = shape(true);
    s.attn_weights_f32 = false;
    assert!(dispatch_layer(&kv, 0, &s, 256, 1024, 2, rows()).is_none());
    s = shape(true);
    s.has_post_attn_norm = true;
    let p0 = dispatch_layer(&kv, 0, &s, 256, 1024, 2, rows()).unwrap();
    assert_eq!(p0.input, LayerInput::PipelineInput);
    assert_eq!(p0.post_attn_norm, PostAttnNormWeight::PostAttn);
}

#[test]
fn full_pipeline_advances_every_layer() {
    let mut kv = KVCache::new(&alloc_buf, 3, 64, 2, 16).unwrap();
    kv.layers[2].advance(5);
    let seen: RefCell<Vec<(usize, usize, u32)>> = RefCell::new(Vec::new());
    let encode = |l: usize, c: &LayerKVCache<usize>, p: PipelineLayerPlan| -> bool {
        seen.borrow_mut().push((l, c.current_len, p.attn.t));
        true
    };
    let run = dispatch_full_pipeline(&mut kv, &[shape(true), shape(true)], 256, 1024, 4, rows(), &encode);
    assert_eq!(run, PipelineRun { done: 2, complete: true, output: PipelineOutput::LayerOutput(1) });
    assert_eq!(*seen.borrow(), vec![(0, 0, 4), (1, 0, 4)]);
    assert_eq!(kv.layers[0].current_len, 4);
    assert_eq!(kv.layers[1].current_len, 4);
    assert_eq!(kv.layers[2].current_len, 5);
    seen.borrow_mut().clear();
    let run = dispatch_full_pipeline(&mut kv, &[shape(true), shape(true)], 256, 1024, 4, rows(), &encode);
    assert_eq!(run.done, 2);
    assert_eq!(*seen.borrow(), vec![(0, 4, 8), (1, 4, 8)]);
}

#[test]
fn full_pipeline_stops_at_unrunnable_layer() {
    let mut kv = KVCache::new(&alloc_buf, 3, 64, 2, 16).unwrap();
    let encoded = Cell::new(0usize);
    let encode = |_l: usize, _c: &LayerKVCache<usize>, _p: PipelineLayerPlan| -> bool {
        encoded.set(encoded.get() + 1);
        true
    };
    let run = dispatch_full_pipeline(&mut kv, &[shape(true), shape(false), shape(true)], 256, 1024, 4, rows(), &encode);
    assert_eq!(run, PipelineRun { done: 1, complete: false, output: PipelineOutput::LayerOutput(0) });
    assert_eq!(encoded.get(), 1);
    assert_eq!(kv.layers[0].current_len, 4);
    assert_eq!(kv.layers[1].current_len, 0);
    assert_eq!(kv.layers[2].current_len, 0);
}

#[test]
fn full_pipeline_stops_at_failed_encoding() {
    let mut kv = KVCache::new(&alloc_buf, 3, 64, 2, 16).unwrap();
    let encode = |l: usize, _c: &LayerKVCache<usize>, _p: PipelineLayerPlan| -> bool { l != 1 };
    let run = dispatch_full_pipeline(&mut kv, &[shape(true), shape(true), shape(true)], 256, 1024, 4, rows(), &encode);
    assert_eq!((run.done, run.complete), (1, false));
    assert_eq!(kv.layers[0].current_len, 4);
    assert_eq!(kv.layers[1].current_len, 0);
    assert_eq!(kv.layers[2].current_len, 0);
}

#[test]
fn full_pipeline_without_layers_passes_the_input_through() {
    let mut kv = KVCache::new(&alloc_buf, 2, 64, 2, 16).unwrap();
    kv.layers[1].advance(7);
    let encode = |_l: usize, _c: &LayerKVCache<usize>, _p: PipelineLayerPlan| -> bool { panic!("no layer to encode") };
    let run = dispatch_full_pipeline(&mut kv, &[], 256, 1024, 4, rows(), &encode);
    assert_eq!(run, PipelineRun { done: 0, complete: true, output: PipelineOutput::PipelineInput });
    assert_eq!((kv.layers[0].current_len, kv.layers[1].current_len), (0, 7));
    assert_eq!(pipeline_output(0), PipelineOutput::PipelineInput);
    assert_eq!(pipeline_output(3), PipelineOutput::LayerOutput(2));
}

#[test]
fn full_pipeline_failing_first_layer_outputs_the_input() {
    let mut kv = KVCache::new(&alloc_buf, 1, 64, 2, 16).unwrap();
    let encode = |_l: usize, _c: &LayerKVCache<usize>, _p: PipelineLayerPlan| -> bool { false };
    let run = dispatch_full_pipeline(&mut kv, &[shape(true)], 256, 1024, 4, rows(), &encode);
    assert_eq!(run, PipelineRun { done: 0, complete: false, output: PipelineOutput::PipelineInput });
    assert_eq!(kv.layers[0].current_len, 0);
}

#[test]
fn full_layer_run_records_the_step_only_when_it_ran() {
    let mut kv = LayerKVCache::new(&alloc_buf, 64, 2, 16).unwrap();
    kv.advance(10);
    let seen = Cell::new(0u32);
    let ok = |c: &LayerKVCache<usize>, p: FullLayerPlan| -> bool {
        assert_eq!(c.current_len, 10);
        seen.set(p.attn.t);
        true
    };
    assert!(full_layer::run(&mut kv, 3, 256, 4, 2, 16, 1024, rows(), &ok));
    assert_eq!(seen.get(), 13);
    assert_eq!(kv.current_len, 13);
    let fail = |_c: &LayerKVCache<usize>, _p: FullLayerPlan| -> bool { false };
    assert!(!full_layer::run(&mut kv, 3, 256, 4, 2, 16, 1024, rows(), &fail));
    assert_eq!(kv.current_len, 13);
    assert_eq!((kv.k_cache, kv.v_cache), (64 * 2 * 16 * 4, 64 * 2 * 16 * 4));
}

#[test]
fn pair_batch_position_matches_single_matvec() {
    let batch = pair_batch(300, 3, 64, 100, 8);
    let x8 = vec![0i8; 100];
    let single = q4_matvec::dispatch(&x8, 64, 100, 8);
    for b in &batch {
        assert_eq!((b.n, b.k, b.groups, b.out_len, b.out_bytes), (single.n, single.k, single.groups, single.out_len, single.out_bytes));
    }
}
