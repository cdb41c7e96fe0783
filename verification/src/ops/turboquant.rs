//! TurboQuant encode/decode dispatch geometry: `batch` vectors of `d`
//! values, each encoded as one f32 norm and `d / 2` packed bytes.
use vstd::prelude::*;

verus! {

#[derive(Clone, Copy, PartialEq, Eq, Structural, Debug)]
pub struct EncodeDispatch {
    pub norms_len: usize,
    pub norms_bytes: usize,
    pub packed_len: usize,
    pub groups: u32,
}

/// Encoding: one norm per vector, `batch * d / 2` packed bytes, one workgroup per vector.
pub fn encode_dispatch(d: u32, batch: u32) -> (e: EncodeDispatch)
    requires
        batch * d <= u32::MAX,
        batch * 4 <= usize::MAX,
    ensures
        e == (EncodeDispatch {
            norms_len: batch as usize,
            norms_bytes: (batch * 4) as usize,
            packed_len: ((batch * d) / 2) as usize,
            groups: batch,
        }),
{
    let norms_len = batch as usize;
    EncodeDispatch { norms_len, norms_bytes: norms_len * 4, packed_len: (batch * d / 2) as usize, groups: batch }
}

#[derive(Clone, Copy, PartialEq, Eq, Structural, Debug)]
pub struct DecodeDispatch {
    pub output_len: usize,
    pub output_bytes: usize,
    pub groups: u32,
}

/// Decoding: `batch * d` values out, one workgroup per vector.
pub fn decode_dispatch(d: u32, batch: u32) -> (r: DecodeDispatch)
    requires
        batch * d <= u32::MAX,
        batch * d * 4 <= usize::MAX,
    ensures
        r == (DecodeDispatch {
            output_len: (batch * d) as usize,
            output_bytes: (batch * d * 4) as usize,
            groups: batch,
        }),
{
    let output_len = (batch * d) as usize;
    DecodeDispatch { output_len, output_bytes: output_len * 4, groups: batch }
}

} // verus!
