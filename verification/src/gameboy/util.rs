//! Single bits of a byte, and the two bytes of a word.

use vstd::prelude::*;

verus! {

/// Whether bit `b` of `v` is 1. Bits are numbered from zero, the least
/// significant first.
pub open spec fn spec_test_bit(v: u8, b: u8) -> bool {
    v & (1u8 << b) != 0
}

/// `v` with bit `b` forced to 0.
pub open spec fn spec_clear_bit(v: u8, b: u8) -> u8 {
    v & !(1u8 << b)
}

/// `v` with bit `b` forced to 1.
pub open spec fn spec_set_bit(v: u8, b: u8) -> u8 {
    v | (1u8 << b)
}

/// The 16-bit word whose high byte is `hi` and whose low byte is `lo`.
pub open spec fn spec_word(hi: u8, lo: u8) -> u16 {
    (hi as int * 256 + lo as int) as u16
}

/// The high byte of `w`.
pub open spec fn spec_high(w: u16) -> u8 {
    (w / 256) as u8
}

/// The low byte of `w`.
pub open spec fn spec_low(w: u16) -> u8 {
    (w % 256) as u8
}

/// Returns `true` if bit `b` of `v` is 1.
#[inline]
pub fn test_bit(v: u8, b: u8) -> (r: bool)
    requires
        b <= 7,
    ensures
        r == spec_test_bit(v, b),
{
    v & (1u8 << b) != 0
}

/// Returns `v` with bit `b` cleared.
#[inline]
pub fn clear_bit(v: u8, b: u8) -> (r: u8)
    requires
        b <= 7,
    ensures
        r == spec_clear_bit(v, b),
{
    v & !(1u8 << b)
}

/// Returns `v` with bit `b` set.
#[inline]
pub fn set_bit(v: u8, b: u8) -> (r: u8)
    requires
        b <= 7,
    ensures
        r == spec_set_bit(v, b),
{
    v | (1u8 << b)
}

/// Packs two bytes into a word, `hi` first.
#[inline]
pub fn make_word(hi: u8, lo: u8) -> (r: u16)
    ensures
        r == spec_word(hi, lo),
        spec_high(r) == hi,
        spec_low(r) == lo,
{
    (hi as u16) * 256 + (lo as u16)
}

/// The high byte of a word.
#[inline]
pub fn high_byte(w: u16) -> (r: u8)
    ensures
        r == spec_high(w),
{
    (w / 256) as u8
}

/// The low byte of a word.
#[inline]
pub fn low_byte(w: u16) -> (r: u8)
    ensures
        r == spec_low(w),
{
    (w % 256) as u8
}

/// A word is the packing of its own two bytes, and the bytes of a packed
/// word are the bytes it was packed from.
pub proof fn lemma_word_round_trip(w: u16, hi: u8, lo: u8)
    ensures
        spec_word(spec_high(w), spec_low(w)) == w,
        spec_high(spec_word(hi, lo)) == hi,
        spec_low(spec_word(hi, lo)) == lo,
{
}

/// Setting, clearing and testing a bit agree with each other, and leave the
/// other bits alone.
pub proof fn lemma_bit_ops(v: u8, b: u8, other: u8)
    requires
        b <= 7,
        other <= 7,
        other != b,
    ensures
        spec_test_bit(spec_set_bit(v, b), b),
        !spec_test_bit(spec_clear_bit(v, b), b),
        spec_test_bit(spec_set_bit(v, b), other) == spec_test_bit(v, other),
        spec_test_bit(spec_clear_bit(v, b), other) == spec_test_bit(v, other),
        spec_test_bit(v, b) ==> spec_set_bit(v, b) == v,
        !spec_test_bit(v, b) ==> spec_clear_bit(v, b) == v,
{
    assert(b <= 7 && other <= 7 && other != b ==> (v | (1u8 << b)) & (1u8 << b) != 0 && (v & !(1u8
        << b)) & (1u8 << b) == 0 && ((v | (1u8 << b)) & (1u8 << other) != 0) == (v & (1u8 << other)
        != 0) && ((v & !(1u8 << b)) & (1u8 << other) != 0) == (v & (1u8 << other) != 0) && (v & (
    1u8 << b) != 0 ==> v | (1u8 << b) == v) && (v & (1u8 << b) == 0 ==> v & !(1u8 << b) == v))
        by (bit_vector);
}

} // verus!
