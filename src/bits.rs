//! Bytes, 16-bit words and single bits, as the register file sees them.
use vstd::prelude::*;

verus! {

/// The 16-bit value whose high byte is `hi` and whose low byte is `lo`.
pub open spec fn compose(hi: u8, lo: u8) -> u16 {
    (hi as int * 256 + lo as int) as u16
}

/// The high byte of a 16-bit value.
pub open spec fn high_byte(v: u16) -> u8 {
    (v / 256) as u8
}

/// The low byte of a 16-bit value.
pub open spec fn low_byte(v: u16) -> u8 {
    (v % 256) as u8
}

/// Whether bit `i` of `x` is set.
pub open spec fn bit_set(x: u8, i: u8) -> bool {
    (x >> i) & 1 == 1
}

/// 1 for a set condition, 0 for a clear one.
pub open spec fn bit_value(b: bool) -> int {
    if b { 1 } else { 0 }
}

/// The flags byte holding the four condition bits given, with bits 0 to 3 clear.
pub open spec fn flags_byte(z: bool, n: bool, h: bool, c: bool) -> u8 {
    (bit_value(z) * 128 + bit_value(n) * 64 + bit_value(h) * 32 + bit_value(c) * 16) as u8
}

/// Splitting a word and composing its two bytes gives the word back.
pub proof fn lemma_compose_split(v: u16)
    ensures
        compose(high_byte(v), low_byte(v)) == v,
{
}

/// Composing two bytes and splitting the word gives the two bytes back.
pub proof fn lemma_split_compose(hi: u8, lo: u8)
    ensures
        high_byte(compose(hi, lo)) == hi,
        low_byte(compose(hi, lo)) == lo,
{
}

/// A byte is fixed by its eight bits.
pub proof fn lemma_bits_determine(x: u8, y: u8)
    requires
        forall|i: u8| i < 8 ==> #[trigger] bit_set(x, i) == bit_set(y, i),
    ensures
        x == y,
{
    assert(bit_set(x, 0) == bit_set(y, 0));
    assert(bit_set(x, 1) == bit_set(y, 1));
    assert(bit_set(x, 2) == bit_set(y, 2));
    assert(bit_set(x, 3) == bit_set(y, 3));
    assert(bit_set(x, 4) == bit_set(y, 4));
    assert(bit_set(x, 5) == bit_set(y, 5));
    assert(bit_set(x, 6) == bit_set(y, 6));
    assert(bit_set(x, 7) == bit_set(y, 7));
    assert(x == y) by (bit_vector)
        requires
            ((x >> 0u8) & 1 == 1) == ((y >> 0u8) & 1 == 1),
            ((x >> 1u8) & 1 == 1) == ((y >> 1u8) & 1 == 1),
            ((x >> 2u8) & 1 == 1) == ((y >> 2u8) & 1 == 1),
            ((x >> 3u8) & 1 == 1) == ((y >> 3u8) & 1 == 1),
            ((x >> 4u8) & 1 == 1) == ((y >> 4u8) & 1 == 1),
            ((x >> 5u8) & 1 == 1) == ((y >> 5u8) & 1 == 1),
            ((x >> 6u8) & 1 == 1) == ((y >> 6u8) & 1 == 1),
            ((x >> 7u8) & 1 == 1) == ((y >> 7u8) & 1 == 1),
    ;
}

} // verus!
