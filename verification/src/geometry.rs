//! Workgroup-count arithmetic and buffer spans shared by every dispatch plan.
use vstd::prelude::*;

verus! {

/// `ceil(n / d)` over the integers, for `d > 0`.
pub open spec fn ceil_div(n: int, d: int) -> int {
    (n + d - 1) / d
}

/// A half-open index range `[start, end)` into a buffer, as a dispatch slices it.
#[derive(Clone, Copy, PartialEq, Eq, Structural, Debug)]
pub struct Span {
    pub start: u64,
    pub end: u64,
}

/// The span `[pos * stride, pos * stride + len)`: the window that position
/// `pos` of a batch laid out `stride` apart occupies.
pub open spec fn span_at(pos: int, stride: int, len: int) -> Span {
    Span { start: (pos * stride) as u64, end: (pos * stride + len) as u64 }
}

/// True when the spans of all `count` positions fit in `u64` offsets.
pub open spec fn spans_fit(count: int, stride: int, len: int) -> bool {
    count <= 0 || (count - 1) * stride + len <= u64::MAX
}

/// True when the start offsets of all `count` positions fit in a `usize`.
pub open spec fn offsets_fit_usize(count: int, stride: int) -> bool {
    count <= 0 || (count - 1) * stride <= usize::MAX
}

/// Number of workgroups of size `d` needed to cover `n` items: `n.div_ceil(d)`.
pub fn div_ceil_u32(n: u32, d: u32) -> (q: u32)
    requires
        d > 0,
    ensures
        q == ceil_div(n as int, d as int),
{
    let q = n / d;
    proof {
        lemma_ceil_div_split(n as int, d as int);
    }
    if n % d != 0 {
        q + 1
    } else {
        q
    }
}

/// `n.div_ceil(d)` in `usize`.
pub fn div_ceil_usize(n: usize, d: usize) -> (q: usize)
    requires
        d > 0,
    ensures
        q == ceil_div(n as int, d as int),
{
    let q = n / d;
    proof {
        lemma_ceil_div_split(n as int, d as int);
    }
    if n % d != 0 {
        q + 1
    } else {
        q
    }
}

/// `(n + 255) / 256`, the round-up count of 256-wide workgroups written with a
/// plain addition (which the caller must keep from overflowing).
pub fn groups_of_256(n: u32) -> (q: u32)
    requires
        n + 255 <= u32::MAX,
    ensures
        q == ceil_div(n as int, 256),
{
    (n + 255) / 256
}

/// Facts about the position `pos < count` of a batch whose spans fit.
proof fn lemma_position_fits(pos: int, count: int, stride: int, len: int)
    requires
        0 <= pos < count,
        stride >= 0,
        len >= 0,
    ensures
        0 <= pos * stride <= (count - 1) * stride,
        pos * stride + len <= (count - 1) * stride + len,
{
    assert(0 <= pos * stride <= (count - 1) * stride) by (nonlinear_arith)
        requires
            0 <= pos < count,
            stride >= 0,
    ;
}

/// Span of position `pos` (`pos as u64 * stride` onwards, `len` long).
pub fn position_span(pos: usize, count: usize, stride: u64, len: u64) -> (s: Span)
    requires
        pos < count,
        spans_fit(count as int, stride as int, len as int),
    ensures
        s == span_at(pos as int, stride as int, len as int),
{
    proof {
        lemma_position_fits(pos as int, count as int, stride as int, len as int);
    }
    let start = pos as u64 * stride;
    Span { start, end: start + len }
}

/// Span of position `pos` with the offset computed in `usize`
/// (`(pos * stride) as u64` onwards, `len` long).
pub fn position_span_usize(pos: usize, count: usize, stride: usize, len: usize) -> (s: Span)
    requires
        pos < count,
        offsets_fit_usize(count as int, stride as int),
        spans_fit(count as int, stride as int, len as int),
    ensures
        s == span_at(pos as int, stride as int, len as int),
{
    proof {
        lemma_position_fits(pos as int, count as int, stride as int, len as int);
    }
    let start = (pos * stride) as u64;
    Span { start, end: start + len as u64 }
}

/// `ceil_div(n, d)` is the floor quotient, plus one when `d` does not divide `n`.
proof fn lemma_ceil_div_split(n: int, d: int)
    requires
        n >= 0,
        d > 0,
    ensures
        ceil_div(n, d) == n / d + if n % d != 0 { 1int } else { 0int },
        n % d != 0 ==> n / d < n,
{
    let q = n / d;
    let r = n % d;
    vstd::arithmetic::div_mod::lemma_fundamental_div_mod(n, d);
    vstd::arithmetic::div_mod::lemma_mod_bound(n, d);
    assert((q + 1) * d == q * d + d) by (nonlinear_arith);
    assert(q * d == d * q) by (nonlinear_arith);
    if r != 0 {
        vstd::arithmetic::div_mod::lemma_fundamental_div_mod_converse(n + d - 1, d, q + 1, r - 1);
        assert(q * d <= n - r) by (nonlinear_arith)
            requires
                d * q + r == n,
        ;
        assert(q < n) by (nonlinear_arith)
            requires
                d * q + r == n,
                d >= 1,
                r >= 1,
                q >= 0,
        ;
    } else {
        vstd::arithmetic::div_mod::lemma_fundamental_div_mod_converse(n + d - 1, d, q, d - 1);
    }
}

/// Covering: `ceil_div(n, d)` workgroups of `d` items reach every one of `n`
/// items, and the last workgroup is not wholly past them.
pub proof fn lemma_ceil_div_covers(n: int, d: int)
    requires
        n >= 0,
        d > 0,
    ensures
        ceil_div(n, d) * d >= n,
        n > 0 ==> (ceil_div(n, d) - 1) * d < n,
        n == 0 ==> ceil_div(n, d) == 0,
        ceil_div(n, d) >= 0,
{
    let q = ceil_div(n, d);
    vstd::arithmetic::div_mod::lemma_fundamental_div_mod(n + d - 1, d);
    let r = (n + d - 1) % d;
    vstd::arithmetic::div_mod::lemma_mod_bound(n + d - 1, d);
    assert(d * q + r == n + d - 1);
    assert(q * d == d * q) by (nonlinear_arith);
    assert((q - 1) * d == q * d - d) by (nonlinear_arith);
    if n == 0 {
        assert((d - 1) / d == 0) by {
            vstd::arithmetic::div_mod::lemma_basic_div(d - 1, d);
        }
    }
    vstd::arithmetic::div_mod::lemma_div_pos_is_pos(n + d - 1, d);
}

/// Spans of distinct positions never overlap when the stride is at least the
/// span length, so per-position dispatches of a batch write disjoint windows.
pub proof fn lemma_position_spans_disjoint(p: int, q: int, stride: int, len: int)
    requires
        0 <= p < q,
        0 <= len <= stride,
        q * stride + len <= u64::MAX,
    ensures
        span_at(p, stride, len).end <= span_at(q, stride, len).start,
{
    assert(0 <= p * stride) by (nonlinear_arith)
        requires
            0 <= p,
            stride >= 0,
    ;
    assert(p * stride + stride <= q * stride) by (nonlinear_arith)
        requires
            p < q,
            stride >= 0,
    ;
}

} // verus!
