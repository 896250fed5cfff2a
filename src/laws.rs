//! Laws of the register file that relate several operations.
use vstd::prelude::*;

use crate::bits::{bit_set, compose, flags_byte, lemma_bits_determine, lemma_split_compose};
use crate::cpu::RegisterFile;
use crate::names::{ByteReg, FlagName, PairReg};

verus! {

/// A pair is a view over its two byte registers: writing `hi` to its upper
/// register and then `lo` to its lower register (as `write_byte` does) leaves
/// the pair reading `hi * 256 + lo`, and its halves reading `hi` and `lo`.
pub proof fn law_bytes_compose_pair(
    s0: RegisterFile,
    s1: RegisterFile,
    s2: RegisterFile,
    p: PairReg,
    hi: u8,
    lo: u8,
)
    requires
        s1.byte(p.spec_upper()) == hi,
        forall|q: ByteReg| q != p.spec_upper() ==> #[trigger] s1.byte(q) == s0.byte(q),
        s2.byte(p.spec_lower()) == lo,
        forall|q: ByteReg| q != p.spec_lower() ==> #[trigger] s2.byte(q) == s1.byte(q),
    ensures
        s2.pair(p) == compose(hi, lo),
        s2.pair(p) == hi as int * 256 + lo as int,
        s2.byte(p.spec_upper()) == hi,
        s2.byte(p.spec_lower()) == lo,
{
    assert(p.spec_upper() != p.spec_lower());
    lemma_split_compose(hi, lo);
}

/// The byte that `set_flags` stores carries each condition at the bit of its
/// flag, and has bits 0 to 3 clear, whatever F held before.
pub proof fn law_flags_byte_bits(z: bool, n: bool, h: bool, c: bool)
    ensures
        bit_set(flags_byte(z, n, h, c), FlagName::Z.spec_bit()) == z,
        bit_set(flags_byte(z, n, h, c), FlagName::N.spec_bit()) == n,
        bit_set(flags_byte(z, n, h, c), FlagName::H.spec_bit()) == h,
        bit_set(flags_byte(z, n, h, c), FlagName::C.spec_bit()) == c,
        forall|i: u8| i < 4 ==> !#[trigger] bit_set(flags_byte(z, n, h, c), i),
{
    let zb: u8 = if z { 1 } else { 0 };
    let nb: u8 = if n { 1 } else { 0 };
    let hb: u8 = if h { 1 } else { 0 };
    let cb: u8 = if c { 1 } else { 0 };
    let x: u8 = flags_byte(z, n, h, c);
    assert(x == zb * 128 + nb * 64 + hb * 32 + cb * 16);
    assert({
        &&& ((x >> 7u8) & 1 == 1) == (zb == 1)
        &&& ((x >> 6u8) & 1 == 1) == (nb == 1)
        &&& ((x >> 5u8) & 1 == 1) == (hb == 1)
        &&& ((x >> 4u8) & 1 == 1) == (cb == 1)
        &&& x & 15 == 0
    }) by (bit_vector)
        requires
            x == zb * 128 + nb * 64 + hb * 32 + cb * 16,
            zb <= 1,
            nb <= 1,
            hb <= 1,
            cb <= 1,
    ;
    assert forall|i: u8| i < 4 implies !#[trigger] bit_set(x, i) by {
        assert((x >> i) & 1 != 1) by (bit_vector)
            requires
                x & 15 == 0,
                i < 4,
        ;
    }
}

/// What `set_flag` does to F, as a byte: a flags byte `after` that has the
/// flag's bit equal to `value` and every other bit as in `before` is `before`
/// with that one bit set or cleared.
pub proof fn law_set_flag_byte(before: u8, after: u8, flag: FlagName, value: bool)
    requires
        forall|i: u8|
            i < 8 ==> #[trigger] bit_set(after, i) == if i == flag.spec_bit() {
                value
            } else {
                bit_set(before, i)
            },
    ensures
        after == if value {
            before | (1u8 << flag.spec_bit())
        } else {
            before & !(1u8 << flag.spec_bit())
        },
{
    let k = flag.spec_bit();
    let target: u8 = if value {
        before | (1u8 << k)
    } else {
        before & !(1u8 << k)
    };
    assert forall|i: u8| i < 8 implies #[trigger] bit_set(after, i) == bit_set(target, i) by {
        if value {
            assert(bit_set(before | (1u8 << k), i) == (i == k || bit_set(before, i)))
                by (bit_vector)
                requires
                    k < 8,
                    i < 8,
            ;
        } else {
            assert(bit_set(before & !(1u8 << k), i) == (i != k && bit_set(before, i)))
                by (bit_vector)
                requires
                    k < 8,
                    i < 8,
            ;
        }
    }
    lemma_bits_determine(after, target);
}

} // verus!
