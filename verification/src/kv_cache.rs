//! Per-layer key/value cache bookkeeping.
//!
//! The caches are generic over the buffer type `B` that holds the cached keys
//! and values on the device; buffers are obtained through an allocation
//! function handed in by the caller, which may fail.
use vstd::prelude::*;

verus! {

/// Attention span below which a layer counts as short-range.
pub const SHORT_ATTENTION_SPAN: u32 = 1024;

/// Number of cached positions attention looks back over: the whole prefix
/// `t`, clipped to `window_size` when a sliding window is set.
pub open spec fn spec_attention_span(t: u32, window_size: u32) -> u32 {
    if window_size > 0 && t > window_size {
        window_size
    } else {
        t
    }
}

pub fn attention_span(t: u32, window_size: u32) -> (span: u32)
    ensures
        span == spec_attention_span(t, window_size),
        span <= t,
        window_size > 0 ==> span <= window_size,
        window_size == 0 ==> span == t,
        window_size > 0 ==> (span == t || span == window_size),
{
    if window_size > 0 && t > window_size {
        window_size
    } else {
        t
    }
}

/// Bytes of one cache buffer (keys or values) for `max_seq` positions of
/// `num_kv_heads` heads of `head_dim` f32 values.
pub open spec fn spec_cache_bytes(max_seq: usize, num_kv_heads: usize, head_dim: usize) -> int {
    max_seq * num_kv_heads * head_dim * 4
}

/// True when the byte size of a cache buffer, and each partial product on the
/// way to it, fits in a `usize`.
pub open spec fn cache_bytes_fit(max_seq: usize, num_kv_heads: usize, head_dim: usize) -> bool {
    &&& max_seq * num_kv_heads <= usize::MAX
    &&& max_seq * num_kv_heads * head_dim <= usize::MAX
    &&& spec_cache_bytes(max_seq, num_kv_heads, head_dim) <= usize::MAX
}

/// KV cache for one layer: the key and value buffers and how many positions they hold.
pub struct LayerKVCache<B> {
    pub k_cache: B,
    pub v_cache: B,
    pub current_len: usize,
    pub max_seq: usize,
    pub num_kv_heads: usize,
    pub head_dim: usize,
}

/// The `(num_kv_heads, head_dim)` shape of each layer.
pub open spec fn shapes_of<B>(layers: Seq<LayerKVCache<B>>) -> Seq<(usize, usize)> {
    layers.map_values(|l: LayerKVCache<B>| (l.num_kv_heads, l.head_dim))
}

/// A freshly allocated, empty layer of the given shape.
pub open spec fn is_fresh_layer<B>(
    l: LayerKVCache<B>,
    max_seq: usize,
    num_kv_heads: usize,
    head_dim: usize,
) -> bool {
    &&& l.current_len == 0
    &&& l.max_seq == max_seq
    &&& l.num_kv_heads == num_kv_heads
    &&& l.head_dim == head_dim
}

/// Both buffers of `l` are results that `alloc` may give for the cache size.
pub open spec fn buffers_from<B, F: Fn(usize) -> Option<B>>(alloc: F, l: LayerKVCache<B>) -> bool {
    let size = spec_cache_bytes(l.max_seq, l.num_kv_heads, l.head_dim) as usize;
    &&& call_ensures(alloc, (size,), Some(l.k_cache))
    &&& call_ensures(alloc, (size,), Some(l.v_cache))
}

impl<B> LayerKVCache<B> {
    /// Bytes each of the two cache buffers of a layer needs.
    pub fn cache_bytes(max_seq: usize, num_kv_heads: usize, head_dim: usize) -> (n: usize)
        requires
            cache_bytes_fit(max_seq, num_kv_heads, head_dim),
        ensures
            n == spec_cache_bytes(max_seq, num_kv_heads, head_dim),
    {
        max_seq * num_kv_heads * head_dim * 4
    }

    /// Allocates the key and value buffers of one layer through `alloc` and
    /// returns the empty layer cache; `None` when an allocation failed.
    pub fn new<F: Fn(usize) -> Option<B>>(
        alloc: &F,
        max_seq: usize,
        num_kv_heads: usize,
        head_dim: usize,
    ) -> (r: Option<Self>)
        requires
            cache_bytes_fit(max_seq, num_kv_heads, head_dim),
            forall|n: usize| call_requires(*alloc, (n,)),
        ensures
            r matches Some(c) ==> is_fresh_layer(c, max_seq, num_kv_heads, head_dim)
                && buffers_from(*alloc, c),
            r is None ==> call_ensures(
                *alloc,
                (spec_cache_bytes(max_seq, num_kv_heads, head_dim) as usize,),
                None,
            ),
    {
        let size = Self::cache_bytes(max_seq, num_kv_heads, head_dim);
        let k_cache = match alloc(size) {
            Some(b) => b,
            None => return None,
        };
        let v_cache = match alloc(size) {
            Some(b) => b,
            None => return None,
        };
        Some(LayerKVCache { k_cache, v_cache, current_len: 0, max_seq, num_kv_heads, head_dim })
    }

    /// Forgets the cached positions; the buffers and shape stay.
    pub fn clear(&mut self)
        ensures
            final(self).current_len == 0,
            final(self).k_cache == old(self).k_cache,
            final(self).v_cache == old(self).v_cache,
            final(self).max_seq == old(self).max_seq,
            final(self).num_kv_heads == old(self).num_kv_heads,
            final(self).head_dim == old(self).head_dim,
    {
        self.current_len = 0;
    }

    /// Records that `seq_len` more positions were written to the cache.
    pub fn advance(&mut self, seq_len: usize)
        requires
            old(self).current_len + seq_len <= usize::MAX,
        ensures
            final(self).current_len == old(self).current_len + seq_len,
            final(self).k_cache == old(self).k_cache,
            final(self).v_cache == old(self).v_cache,
            final(self).max_seq == old(self).max_seq,
            final(self).num_kv_heads == old(self).num_kv_heads,
            final(self).head_dim == old(self).head_dim,
    {
        self.current_len = self.current_len + seq_len;
    }
}

/// KV cache for all layers of a model.
pub struct KVCache<B> {
    pub layers: Vec<LayerKVCache<B>>,
}

/// Whether the layer shapes differ from `shapes` in count or in any layer.
pub open spec fn spec_has_shape_mismatch<B>(
    layers: Seq<LayerKVCache<B>>,
    shapes: Seq<(usize, usize)>,
) -> bool {
    shapes_of(layers) != shapes
}

/// Cached positions of the first layer, or 0 for a model without layers.
pub open spec fn spec_current_len<B>(layers: Seq<LayerKVCache<B>>) -> usize {
    if layers.len() > 0 {
        layers[0].current_len
    } else {
        0
    }
}

impl<B> KVCache<B> {
    /// A cache of `num_layers` layers of one shape; `None` when an allocation failed.
    pub fn new<F: Fn(usize) -> Option<B>>(
        alloc: &F,
        num_layers: usize,
        max_seq: usize,
        num_kv_heads: usize,
        head_dim: usize,
    ) -> (r: Option<Self>)
        requires
            num_layers > 0 ==> cache_bytes_fit(max_seq, num_kv_heads, head_dim),
            forall|n: usize| call_requires(*alloc, (n,)),
        ensures
            r matches Some(c) ==> {
                &&& c.layers@.len() == num_layers
                &&& forall|i: int|
                    0 <= i < num_layers ==> is_fresh_layer(
                        #[trigger] c.layers@[i],
                        max_seq,
                        num_kv_heads,
                        head_dim,
                    ) && buffers_from(*alloc, c.layers@[i])
            },
            r is None ==> call_ensures(
                *alloc,
                (spec_cache_bytes(max_seq, num_kv_heads, head_dim) as usize,),
                None,
            ),
    {
        let mut layers: Vec<LayerKVCache<B>> = Vec::new();
        let mut i: usize = 0;
        while i < num_layers
            invariant
                i <= num_layers,
                layers@.len() == i,
                num_layers > 0 ==> cache_bytes_fit(max_seq, num_kv_heads, head_dim),
                forall|n: usize| call_requires(*alloc, (n,)),
                forall|j: int|
                    0 <= j < i ==> is_fresh_layer(#[trigger] layers@[j], max_seq, num_kv_heads, head_dim)
                        && buffers_from(*alloc, layers@[j]),
            decreases num_layers - i,
        {
            match LayerKVCache::new(alloc, max_seq, num_kv_heads, head_dim) {
                Some(l) => layers.push(l),
                None => return None,
            }
            i = i + 1;
        }
        Some(KVCache { layers })
    }

    /// A cache with one layer per `(num_kv_heads, head_dim)` entry of `shapes`;
    /// `None` when an allocation failed.
    pub fn new_per_layer<F: Fn(usize) -> Option<B>>(
        alloc: &F,
        shapes: &[(usize, usize)],
        max_seq: usize,
    ) -> (r: Option<Self>)
        requires
            forall|i: int|
                0 <= i < shapes@.len() ==> cache_bytes_fit(max_seq, #[trigger] shapes@[i].0, shapes@[i].1),
            forall|n: usize| call_requires(*alloc, (n,)),
        ensures
            r matches Some(c) ==> {
                &&& c.layers@.len() == shapes@.len()
                &&& forall|i: int|
                    0 <= i < shapes@.len() ==> is_fresh_layer(
                        #[trigger] c.layers@[i],
                        max_seq,
                        shapes@[i].0,
                        shapes@[i].1,
                    ) && buffers_from(*alloc, c.layers@[i])
                &&& !spec_has_shape_mismatch(c.layers@, shapes@)
            },
            r is None ==> exists|i: int|
                0 <= i < shapes@.len() && call_ensures(
                    *alloc,
                    (spec_cache_bytes(max_seq, shapes@[i].0, shapes@[i].1) as usize,),
                    None,
                ),
    {
        let mut layers: Vec<LayerKVCache<B>> = Vec::new();
        let mut i: usize = 0;
        while i < shapes.len()
            invariant
                i <= shapes@.len(),
                layers@.len() == i,
                forall|j: int|
                    0 <= j < shapes@.len() ==> cache_bytes_fit(max_seq, #[trigger] shapes@[j].0, shapes@[j].1),
                forall|n: usize| call_requires(*alloc, (n,)),
                forall|j: int|
                    0 <= j < i ==> is_fresh_layer(#[trigger] layers@[j], max_seq, shapes@[j].0, shapes@[j].1)
                        && buffers_from(*alloc, layers@[j]),
            decreases shapes@.len() - i,
        {
            let (num_kv, hd) = shapes[i];
            match LayerKVCache::new(alloc, max_seq, num_kv, hd) {
                Some(l) => layers.push(l),
                None => return None,
            }
            i = i + 1;
        }
        assert(shapes_of(layers@) =~= shapes@);
        Some(KVCache { layers })
    }

    /// Whether the cache was built for different per-layer shapes than `shapes`.
    pub fn has_shape_mismatch(&self, shapes: &[(usize, usize)]) -> (r: bool)
        ensures
            r == spec_has_shape_mismatch(self.layers@, shapes@),
    {
        if self.layers.len() != shapes.len() {
            return true;
        }
        let mut i: usize = 0;
        while i < shapes.len()
            invariant
                i <= shapes@.len(),
                self.layers@.len() == shapes@.len(),
                forall|j: int| 0 <= j < i ==> shapes_of(self.layers@)[j] == #[trigger] shapes@[j],
            decreases shapes@.len() - i,
        {
            let (expected_num_kv, expected_hd) = shapes[i];
            let layer = &self.layers[i];
            if layer.num_kv_heads != expected_num_kv || layer.head_dim != expected_hd {
                assert(shapes_of(self.layers@)[i as int] != shapes@[i as int]);
                return true;
            }
            i = i + 1;
        }
        assert(shapes_of(self.layers@) =~= shapes@);
        false
    }

    /// Appends fresh layers for the entries of `shapes` past the current layer
    /// count; existing layers are kept as they are. Returns `false`, with the
    /// layers allocated so far kept, when an allocation failed.
    pub fn grow_to_shapes<F: Fn(usize) -> Option<B>>(
        &mut self,
        alloc: &F,
        shapes: &[(usize, usize)],
        max_seq: usize,
    ) -> (ok: bool)
        requires
            forall|i: int|
                old(self).layers@.len() <= i < shapes@.len() ==> cache_bytes_fit(
                    max_seq,
                    #[trigger] shapes@[i].0,
                    shapes@[i].1,
                ),
            forall|n: usize| call_requires(*alloc, (n,)),
        ensures
            final(self).layers@.len() >= old(self).layers@.len(),
            forall|i: int|
                0 <= i < old(self).layers@.len() ==> #[trigger] final(self).layers@[i] == old(self).layers@[i],
            forall|i: int|
                old(self).layers@.len() <= i < final(self).layers@.len() ==> is_fresh_layer(
                    #[trigger] final(self).layers@[i],
                    max_seq,
                    shapes@[i].0,
                    shapes@[i].1,
                ) && buffers_from(*alloc, final(self).layers@[i]),
            final(self).layers@.len() <= shapes@.len() || final(self).layers@.len() == old(self).layers@.len(),
            ok ==> final(self).layers@.len() == if old(self).layers@.len() >= shapes@.len() {
                old(self).layers@.len()
            } else {
                shapes@.len()
            },
            ok && old(self).layers@.len() <= shapes@.len() && shapes_of(old(self).layers@) =~= shapes@.take(
                old(self).layers@.len() as int,
            ) ==> !spec_has_shape_mismatch(final(self).layers@, shapes@),
            !ok ==> final(self).layers@.len() < shapes@.len() && call_ensures(
                *alloc,
                (spec_cache_bytes(
                    max_seq,
                    shapes@[final(self).layers@.len() as int].0,
                    shapes@[final(self).layers@.len() as int].1,
                ) as usize,),
                None,
            ),
    {
        let ghost old_layers = self.layers@;
        while self.layers.len() < shapes.len()
            invariant
                old_layers == old(self).layers@,
                self.layers@.len() >= old_layers.len(),
                forall|i: int| 0 <= i < old_layers.len() ==> #[trigger] self.layers@[i] == old_layers[i],
                forall|i: int|
                    old_layers.len() <= i < self.layers@.len() ==> is_fresh_layer(
                        #[trigger] self.layers@[i],
                        max_seq,
                        shapes@[i].0,
                        shapes@[i].1,
                    ) && buffers_from(*alloc, self.layers@[i]),
                self.layers@.len() <= shapes@.len() || self.layers@.len() == old_layers.len(),
                forall|j: int|
                    old_layers.len() <= j < shapes@.len() ==> cache_bytes_fit(
                        max_seq,
                        #[trigger] shapes@[j].0,
                        shapes@[j].1,
                    ),
                forall|n: usize| call_requires(*alloc, (n,)),
            decreases shapes@.len() - self.layers@.len(),
        {
            let (num_kv, hd) = shapes[self.layers.len()];
            match LayerKVCache::new(alloc, max_seq, num_kv, hd) {
                Some(l) => self.layers.push(l),
                None => return false,
            }
        }
        proof {
            if old_layers.len() <= shapes@.len() && shapes_of(old_layers) =~= shapes@.take(
                old_layers.len() as int,
            ) {
                assert forall|i: int| 0 <= i < shapes@.len() implies shapes_of(self.layers@)[i]
                    == shapes@[i] by {
                    if i < old_layers.len() {
                        assert(shapes_of(old_layers)[i] == shapes@.take(old_layers.len() as int)[i]);
                    }
                }
                assert(shapes_of(self.layers@) =~= shapes@);
            }
        }
        true
    }

    /// Forgets the cached positions of every layer.
    pub fn clear(&mut self)
        ensures
            final(self).layers@.len() == old(self).layers@.len(),
            forall|i: int|
                0 <= i < final(self).layers@.len() ==> {
                    let (a, b) = (#[trigger] final(self).layers@[i], old(self).layers@[i]);
                    &&& a.current_len == 0
                    &&& a.k_cache == b.k_cache
                    &&& a.v_cache == b.v_cache
                    &&& a.max_seq == b.max_seq
                    &&& a.num_kv_heads == b.num_kv_heads
                    &&& a.head_dim == b.head_dim
                },
            shapes_of(final(self).layers@) == shapes_of(old(self).layers@),
            spec_current_len(final(self).layers@) == 0,
    {
        let ghost old_layers = self.layers@;
        let mut i: usize = 0;
        while i < self.layers.len()
            invariant
                i <= self.layers@.len(),
                self.layers@.len() == old_layers.len(),
                forall|j: int|
                    0 <= j < self.layers@.len() ==> {
                        let (a, b) = (#[trigger] self.layers@[j], old_layers[j]);
                        &&& (j < i ==> a.current_len == 0)
                        &&& (j >= i ==> a.current_len == b.current_len)
                        &&& a.k_cache == b.k_cache
                        &&& a.v_cache == b.v_cache
                        &&& a.max_seq == b.max_seq
                        &&& a.num_kv_heads == b.num_kv_heads
                        &&& a.head_dim == b.head_dim
                    },
            decreases self.layers@.len() - i,
        {
            self.layers[i].clear();
            i = i + 1;
        }
        assert(shapes_of(self.layers@) =~= shapes_of(old_layers));
    }

    /// Cached positions of the first layer; 0 when there are no layers.
    pub fn current_len(&self) -> (n: usize)
        ensures
            n == spec_current_len(self.layers@),
    {
        if self.layers.len() > 0 {
            self.layers[0].current_len
        } else {
            0
        }
    }
}

} // verus!
