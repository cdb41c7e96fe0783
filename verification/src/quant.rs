//! Quantisation formats and the byte layouts the shaders read.
use vstd::prelude::*;

verus! {

/// Weight storage formats a matvec can be asked to run on.
#[allow(non_camel_case_types)]
#[derive(Clone, Copy, PartialEq, Eq, Structural, Debug)]
pub enum QuantFormat {
    Q4_0,
    Q8_0,
    Q4_K,
    Q4_KF,
    Q6_K,
    BF16,
    F16,
    F32,
}

/// Zero bytes needed to bring a length up to a multiple of 4.
pub open spec fn word_padding(len: nat) -> nat {
    ((4 - (len % 4) as int) % 4) as nat
}

/// `bytes` followed by zero bytes up to the next multiple of 4 (shaders read
/// the weights as `uint[]`).
pub open spec fn spec_pad_to_words(bytes: Seq<u8>) -> Seq<u8> {
    bytes + Seq::new(word_padding(bytes.len()), |i: int| 0u8)
}

/// Copies `bytes` and appends zero bytes until the length is a multiple of 4.
pub fn pad_to_words(bytes: &[u8]) -> (padded: Vec<u8>)
    requires
        bytes@.len() + 3 <= usize::MAX,
    ensures
        padded@ == spec_pad_to_words(bytes@),
        padded@.len() % 4 == 0,
        bytes@.len() <= padded@.len() < bytes@.len() + 4,
        padded@.subrange(0, bytes@.len() as int) == bytes@,
{
    let mut padded: Vec<u8> = Vec::new();
    let mut i: usize = 0;
    while i < bytes.len()
        invariant
            i <= bytes@.len(),
            padded@ == bytes@.subrange(0, i as int),
        decreases bytes@.len() - i,
    {
        padded.push(bytes[i]);
        i = i + 1;
    }
    let ghost base = padded@;
    while padded.len() % 4 != 0
        invariant
            base == bytes@,
            padded@.len() >= base.len(),
            padded@.len() <= base.len() + word_padding(base.len()),
            padded@.subrange(0, base.len() as int) == base,
            forall|j: int| base.len() <= j < padded@.len() ==> padded@[j] == 0u8,
            bytes@.len() + 3 <= usize::MAX,
        decreases base.len() + word_padding(base.len()) - padded@.len(),
    {
        padded.push(0u8);
    }
    assert(padded@ =~= spec_pad_to_words(bytes@));
    padded
}

/// The byte an `i8` occupies in memory.
pub open spec fn byte_of(v: i8) -> u8 {
    v as u8
}

/// Little-endian word made of four bytes.
pub open spec fn le_word(b0: u8, b1: u8, b2: u8, b3: u8) -> u32 {
    (b0 as u32) | ((b1 as u32) << 8u32) | ((b2 as u32) << 16u32) | ((b3 as u32) << 24u32)
}

/// Word `j` of a Q8 vector: its bytes `4j .. 4j + 4`, little-endian.
pub open spec fn q8_word(x8: Seq<i8>, j: int) -> u32 {
    le_word(byte_of(x8[4 * j]), byte_of(x8[4 * j + 1]), byte_of(x8[4 * j + 2]), byte_of(x8[4 * j + 3]))
}

/// Packs a Q8 vector into `uint` words, four int8 values per word with the
/// first value in the low byte (the memory layout of the int8 array on a
/// little-endian machine, which is what the shader unpacks).
pub fn pack_q8_words(x8: &[i8]) -> (words: Vec<u32>)
    requires
        x8@.len() % 4 == 0,
    ensures
        words@.len() == x8@.len() / 4,
        forall|j: int| 0 <= j < words@.len() ==> #[trigger] words@[j] == q8_word(x8@, j),
{
    let mut words: Vec<u32> = Vec::new();
    let len = x8.len();
    let n = len / 4;
    let mut j: usize = 0;
    while j < n
        invariant
            len == x8@.len(),
            n == x8@.len() / 4,
            x8@.len() % 4 == 0,
            j <= n,
            words@.len() == j,
            forall|i: int| 0 <= i < j ==> #[trigger] words@[i] == q8_word(x8@, i),
        decreases n - j,
    {
        assert(4 * j + 3 < x8@.len()) by (nonlinear_arith)
            requires
                j < n,
                n == x8@.len() / 4,
                x8@.len() % 4 == 0,
        ;
        let b0 = x8[4 * j] as u8;
        let b1 = x8[4 * j + 1] as u8;
        let b2 = x8[4 * j + 2] as u8;
        let b3 = x8[4 * j + 3] as u8;
        let w = (b0 as u32) | ((b1 as u32) << 8u32) | ((b2 as u32) << 16u32) | ((b3 as u32) << 24u32);
        words.push(w);
        j = j + 1;
    }
    words
}

/// Each byte of a packed word reads back as the int8 it came from: byte `i`
/// of `le_word(b0, b1, b2, b3)` is `b_i`.
pub proof fn lemma_le_word_bytes(b0: u8, b1: u8, b2: u8, b3: u8)
    ensures
        le_word(b0, b1, b2, b3) & 0xff == b0 as u32,
        (le_word(b0, b1, b2, b3) >> 8u32) & 0xff == b1 as u32,
        (le_word(b0, b1, b2, b3) >> 16u32) & 0xff == b2 as u32,
        (le_word(b0, b1, b2, b3) >> 24u32) & 0xff == b3 as u32,
{
    let (x0, x1, x2, x3) = (b0 as u32, b1 as u32, b2 as u32, b3 as u32);
    assert(x0 < 256 && x1 < 256 && x2 < 256 && x3 < 256);
    assert((x0 | (x1 << 8u32) | (x2 << 16u32) | (x3 << 24u32)) & 0xff == x0
        && ((x0 | (x1 << 8u32) | (x2 << 16u32) | (x3 << 24u32)) >> 8u32) & 0xff == x1
        && ((x0 | (x1 << 8u32) | (x2 << 16u32) | (x3 << 24u32)) >> 16u32) & 0xff == x2
        && ((x0 | (x1 << 8u32) | (x2 << 16u32) | (x3 << 24u32)) >> 24u32) & 0xff == x3)
        by (bit_vector)
        requires
            x0 < 256,
            x1 < 256,
            x2 < 256,
            x3 < 256,
    ;
}

} // verus!
