//! Shared lemmas about bit-field splicing on fixed-width words.

use vstd::prelude::*;

verus! {

/// A two-bit field extracted with `& 3` is at most 3.
pub(crate) proof fn lemma_two_bits_u64(x: u64)
    by (bit_vector)
    ensures
        x & 3 <= 3,
{
}

/// A two-bit field extracted with `& 3` is at most 3.
pub(crate) proof fn lemma_two_bits_u16(x: u16)
    by (bit_vector)
    ensures
        x & 3 <= 3,
{
}

/// Splicing a single bit `b` into position `n` leaves every other single-bit
/// field of the word unchanged.
pub(crate) proof fn lemma_single_bit_update_keeps_other_bit(v: u64, b: u64, n: u64, k: u64)
    by (bit_vector)
    requires
        b <= 1,
        n < 64,
        k < 64,
        n != k,
    ensures
        ((v & !(1u64 << n)) | (b << n)) & (1u64 << k) == v & (1u64 << k),
{
}

/// Splicing a single bit `b` into position `n` of a word leaves bit 0, the
/// present bit of descriptors and page-map entries, unchanged.
pub(crate) proof fn lemma_single_bit_update_keeps_bit0(v: u64, b: u64, n: u64)
    by (bit_vector)
    requires
        b <= 1,
        1 <= n < 64,
    ensures
        ((v & !(1u64 << n)) | (b << n)) & 1 == v & 1,
{
}

/// A masked value holds no bits outside the mask.
pub(crate) proof fn lemma_mask_keeps_only_mask_bits(v: u64, m: u64)
    by (bit_vector)
    ensures
        (v & m) & !m == 0,
{
}

/// Masking is idempotent.
pub(crate) proof fn lemma_mask_idempotent(a: u64, m: u64)
    by (bit_vector)
    ensures
        (a & m) & m == a & m,
{
}

/// The bits selected by a mask are closed under the whole-word combination
/// operators: combining two words that fit the mask gives a word that fits it.
pub(crate) proof fn lemma_mask_closed_under_ops(a: u64, b: u64, m: u64)
    by (bit_vector)
    requires
        a & m == a,
        b & m == b,
    ensures
        (a & b) & m == a & b,
        (a | b) & m == a | b,
        (a ^ b) & m == a ^ b,
{
}

/// Joining the two 32-bit halves of a 64-bit word gives the word back.
pub(crate) proof fn lemma_u64_halves_join(v: u64)
    by (bit_vector)
    ensures
        ((v as u32) as u64) | ((((v >> 32) as u32) as u64) << 32) == v,
{
}

/// Two zero halves join to the zero word.
pub(crate) proof fn lemma_u64_zero_halves()
    by (bit_vector)
    ensures
        (0u32 as u64) | ((0u32 as u64) << 32) == 0u64,
{
}

} // verus!
