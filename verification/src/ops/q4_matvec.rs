//! Q4_0 matvec with Q8 input: the Q8 vector packed into words and the
//! dispatch geometry.
use vstd::prelude::*;
use crate::quant::{pack_q8_words, q8_word};

verus! {

/// The plan: Q8 input as `uint` words, push constants, output length and
/// bytes, and `n / rows_per_tg` workgroups (rounded down).
pub struct Q4MatvecPlan {
    pub x_words: Vec<u32>,
    pub n: u32,
    pub k: u32,
    pub out_len: usize,
    pub out_bytes: usize,
    pub groups: u32,
}

/// The dispatch geometry of an `n x k` Q4_0 matvec on a kernel covering
/// `rows_per_tg` rows per workgroup: push constants, output length and
/// bytes, workgroups.
pub open spec fn q4_matvec_geometry(p: Q4MatvecPlan, n: usize, k: usize, rows_per_tg: u32) -> bool {
    &&& p.n == n as u32
    &&& p.k == k as u32
    &&& p.out_len == n
    &&& p.out_bytes == n * 4
    &&& p.groups == (n as u32) / rows_per_tg
}

/// Plan of `dispatch(w4, x8, x_scales, n, k)` with a kernel covering
/// `rows_per_tg` rows per workgroup.
pub fn dispatch(x8: &[i8], n: usize, k: usize, rows_per_tg: u32) -> (p: Q4MatvecPlan)
    requires
        x8@.len() % 4 == 0,
        n * 4 <= usize::MAX,
        rows_per_tg > 0,
    ensures
        p.x_words@.len() == x8@.len() / 4,
        forall|j: int| 0 <= j < p.x_words@.len() ==> #[trigger] p.x_words@[j] == q8_word(x8@, j),
        q4_matvec_geometry(p, n, k, rows_per_tg),
{
    let x_words = pack_q8_words(x8);
    Q4MatvecPlan {
        x_words,
        n: n as u32,
        k: k as u32,
        out_len: n,
        out_bytes: n * 4,
        groups: (n as u32) / rows_per_tg,
    }
}

} // verus!
