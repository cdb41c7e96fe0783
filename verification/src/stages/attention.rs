//! Fused causal attention (RoPE, QK-norm, causal GQA softmax, softcap) for a
//! whole layer's QKV in one dispatch.
use vstd::prelude::*;

verus! {

/// Integer push constants and grid of the fused attention dispatch: one
/// workgroup per (query head, position); `t` is the number of positions.
#[derive(Clone, Copy, PartialEq, Eq, Structural, Debug)]
pub struct AttnDispatch {
    pub t: u32,
    pub head_dim: u32,
    pub num_q: u32,
    pub num_kv: u32,
    pub rotary_dim: u32,
    pub window_size: u32,
    pub groups_x: u32,
    pub groups_y: u32,
}

/// The fused attention dispatch over `seq_len` positions (no sliding window).
pub fn encode(seq_len: usize, num_q_heads: usize, num_kv_heads: usize, head_dim: usize, rotary_dim: u32) -> (d: AttnDispatch)
    ensures
        d == (AttnDispatch {
            t: seq_len as u32,
            head_dim: head_dim as u32,
            num_q: num_q_heads as u32,
            num_kv: num_kv_heads as u32,
            rotary_dim,
            window_size: 0,
            groups_x: num_q_heads as u32,
            groups_y: seq_len as u32,
        }),
{
    AttnDispatch {
        t: seq_len as u32,
        head_dim: head_dim as u32,
        num_q: num_q_heads as u32,
        num_kv: num_kv_heads as u32,
        rotary_dim,
        window_size: 0,
        groups_x: num_q_heads as u32,
        groups_y: seq_len as u32,
    }
}

} // verus!
