use larql_compute::kv_cache::{attention_span, KVCache, LayerKVCache, SHORT_ATTENTION_SPAN};

fn alloc_ok(n: usize) -> Option<usize> {
    Some(n)
}

fn alloc_none(_n: usize) -> Option<usize> {
    None
}

#[test]
fn attention_span_without_window_is_whole_prefix() {
    assert_eq!(attention_span(5000, 0), 5000);
    assert_eq!(attention_span(0, 0), 0);
}

#[test]
fn attention_span_clips_to_window() {
    assert_eq!(attention_span(5000, SHORT_ATTENTION_SPAN), 1024);
    assert_eq!(attention_span(1025, 1024), 1024);
}

#[test]
fn attention_span_short_prefix_inside_window() {
    assert_eq!(attention_span(100, 1024), 100);
    assert_eq!(attention_span(1024, 1024), 1024);
}

#[test]
fn cache_bytes_formula() {
    assert_eq!(LayerKVCache::<usize>::cache_bytes(2048, 8, 128), 2048 * 8 * 128 * 4);
    assert_eq!(LayerKVCache::<usize>::cache_bytes(0, 8, 128), 0);
}

#[test]
fn layer_cache_allocates_both_buffers_of_cache_size() {
    let layer = LayerKVCache::new(&alloc_ok, 16, 2, 64).unwrap();
    assert_eq!(layer.k_cache, 16 * 2 * 64 * 4);
    assert_eq!(layer.v_cache, 16 * 2 * 64 * 4);
    assert_eq!(layer.current_len, 0);
    assert_eq!(layer.max_seq, 16);
    assert_eq!(layer.num_kv_heads, 2);
    assert_eq!(layer.head_dim, 64);
}

#[test]
fn layer_cache_allocation_failure_gives_none() {
    assert!(LayerKVCache::new(&alloc_none, 16, 2, 64).is_none());
}

#[test]
fn layer_cache_advance_then_clear() {
    let mut layer = LayerKVCache::new(&alloc_ok, 16, 2, 64).unwrap();
    layer.advance(3);
    layer.advance(4);
    assert_eq!(layer.current_len, 7);
    layer.clear();
    assert_eq!(layer.current_len, 0);
    assert_eq!(layer.k_cache, 16 * 2 * 64 * 4);
}

#[test]
fn kv_cache_uniform_layers() {
    let cache = KVCache::new(&alloc_ok, 3, 8, 4, 16).unwrap();
    assert_eq!(cache.layers.len(), 3);
    for l in &cache.layers {
        assert_eq!((l.num_kv_heads, l.head_dim, l.max_seq, l.current_len), (4, 16, 8, 0));
        assert_eq!(l.k_cache, 8 * 4 * 16 * 4);
    }
    assert!(!cache.has_shape_mismatch(&[(4, 16), (4, 16), (4, 16)]));
    assert!(KVCache::new(&alloc_none, 3, 8, 4, 16).is_none());
}

#[test]
fn kv_cache_without_layers_has_zero_len() {
    let cache = KVCache::new(&alloc_ok, 0, 8, 4, 16).unwrap();
    assert_eq!(cache.current_len(), 0);
    assert!(cache.has_shape_mismatch(&[(4, 16)]));
    assert!(!cache.has_shape_mismatch(&[]));
}

#[test]
fn fresh_per_layer_cache_matches_its_shapes() {
    let shapes = [(8, 256), (2, 512), (8, 256)];
    let cache = KVCache::new_per_layer(&alloc_ok, &shapes, 32).unwrap();
    assert!(!cache.has_shape_mismatch(&shapes));
    assert_eq!(cache.layers[1].k_cache, 32 * 2 * 512 * 4);
    assert!(KVCache::new_per_layer(&alloc_none, &shapes, 32).is_none());
}

#[test]
fn shape_mismatch_detection() {
    let cache = KVCache::new_per_layer(&alloc_ok, &[(8, 256), (2, 512)], 32).unwrap();
    assert!(cache.has_shape_mismatch(&[(8, 256)]));
    assert!(cache.has_shape_mismatch(&[(8, 256), (2, 256)]));
    assert!(cache.has_shape_mismatch(&[(8, 256), (4, 512)]));
    assert!(cache.has_shape_mismatch(&[(8, 256), (2, 512), (2, 512)]));
    assert!(!cache.has_shape_mismatch(&[(8, 256), (2, 512)]));
}

#[test]
fn grow_keeps_existing_layers_and_matches_shapes() {
    let mut cache = KVCache::new_per_layer(&alloc_ok, &[(8, 256)], 32).unwrap();
    cache.layers[0].advance(5);
    let shapes = [(8, 256), (2, 512), (4, 128)];
    assert!(cache.grow_to_shapes(&alloc_ok, &shapes, 64));
    assert_eq!(cache.layers.len(), 3);
    assert_eq!(cache.layers[0].current_len, 5);
    assert_eq!(cache.layers[0].max_seq, 32);
    assert_eq!(cache.layers[2].max_seq, 64);
    assert_eq!(cache.layers[2].current_len, 0);
    assert!(!cache.has_shape_mismatch(&shapes));
}

#[test]
fn grow_never_shrinks() {
    let mut cache = KVCache::new_per_layer(&alloc_ok, &[(8, 256), (2, 512)], 32).unwrap();
    assert!(cache.grow_to_shapes(&alloc_ok, &[(8, 256)], 32));
    assert_eq!(cache.layers.len(), 2);
}

#[test]
fn grow_stops_at_failed_allocation() {
    let mut cache = KVCache::new_per_layer(&alloc_ok, &[(8, 256)], 32).unwrap();
    assert!(!cache.grow_to_shapes(&alloc_none, &[(8, 256), (2, 512)], 32));
    assert_eq!(cache.layers.len(), 1);
}

#[test]
fn clear_resets_every_layer_and_current_len() {
    let mut cache = KVCache::new(&alloc_ok, 2, 8, 4, 16).unwrap();
    cache.layers[0].advance(6);
    cache.layers[1].advance(2);
    assert_eq!(cache.current_len(), 6);
    cache.clear();
    assert_eq!(cache.current_len(), 0);
    assert_eq!(cache.layers[1].current_len, 0);
    assert!(!cache.has_shape_mismatch(&[(4, 16), (4, 16)]));
}
