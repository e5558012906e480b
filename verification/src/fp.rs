//! IEEE-754 double-precision bit patterns, and the questions the core asks
//! of them: is the number zero, negative, non-finite, equal to one, and
//! does it round to an even integer.

use vstd::prelude::*;

verus! {

/// A double-precision number as the host evaluated it: the IEEE-754
/// binary64 bit pattern, and the decimal text the host renders it as.
///
/// The core performs no floating-point arithmetic of its own. It reads the
/// bit pattern to settle domain questions, and splices the rendering into
/// derivation trails and display lines.
#[derive(Debug)]
pub struct Fp {
    /// The IEEE-754 binary64 bit pattern.
    pub bits: u64,
    /// The decimal rendering of the same number.
    pub text: String,
}

impl Fp {
    pub fn new(bits: u64, text: String) -> (r: Fp)
        ensures
            r.bits == bits,
            r.text == text,
    {
        Fp { bits, text }
    }
}

/// The sign bit of a binary64 pattern.
pub const SIGN_MASK: u64 = 0x8000_0000_0000_0000;

/// Every bit but the sign.
pub const ABS_MASK: u64 = 0x7fff_ffff_ffff_ffff;

/// The eleven exponent bits.
pub const EXP_MASK: u64 = 0x7ff0_0000_0000_0000;

/// The fifty-two fraction bits.
pub const FRAC_MASK: u64 = 0x000f_ffff_ffff_ffff;

/// The pattern of positive one.
pub const ONE_BITS: u64 = 0x3ff0_0000_0000_0000;

/// The double with this pattern compares equal to zero: it is 0.0 or -0.0.
pub open spec fn is_zero_bits(b: u64) -> bool {
    b & ABS_MASK == 0
}

/// The pattern is a NaN: exponent bits all set, fraction bits not all clear.
pub open spec fn is_nan_bits(b: u64) -> bool {
    b & EXP_MASK == EXP_MASK && b & FRAC_MASK != 0
}

/// The pattern is an infinity or a NaN: exponent bits all set.
pub open spec fn is_non_finite_bits(b: u64) -> bool {
    b & EXP_MASK == EXP_MASK
}

/// The double with this pattern compares strictly below zero. A NaN does
/// not, and neither does -0.0.
pub open spec fn lt_zero_bits(b: u64) -> bool {
    b & SIGN_MASK != 0 && !is_zero_bits(b) && !is_nan_bits(b)
}

/// The double with this pattern compares at or below zero. A NaN does not.
pub open spec fn le_zero_bits(b: u64) -> bool {
    is_zero_bits(b) || lt_zero_bits(b)
}

/// The double with this pattern compares equal to positive one.
pub open spec fn is_one_bits(b: u64) -> bool {
    b == ONE_BITS
}

/// Parity of a pattern whose magnitude lies between one and 2^52: the
/// fraction bits below the binary point are rounded half away from zero
/// into the integer part, and a magnitude that reaches 2^31 saturates the
/// 32-bit narrowing, to an odd bound when positive and an even one when
/// negative.
pub open spec fn mid_range_round_is_even(exp: u64, frac: u64, neg: bool) -> bool {
    let sh: u64 = (1075 - exp) as u64;
    let full: u64 = 0x0010_0000_0000_0000 | frac;
    let ipart: u64 = full >> sh;
    let half: u64 = 1u64 << ((sh - 1) as u64);
    let low: u64 = full & (((1u64 << sh) - 1) as u64);
    let n: int = if low >= half { ipart + 1 } else { ipart as int };
    if n >= 0x8000_0000 {
        neg
    } else {
        n % 2 == 0
    }
}

/// The double with this pattern, rounded half away from zero and narrowed
/// to a 32-bit integer, is even. The narrowing saturates: magnitudes of
/// 2^31 and above land on the bounds (the upper bound is odd, the lower
/// even), and a NaN lands on zero. A root degree with this property is the
/// one refused on a negative radicand.
pub open spec fn round_is_even_bits(b: u64) -> bool {
    let exp: u64 = (b >> 52) & 0x7ff;
    let frac: u64 = b & FRAC_MASK;
    let neg: bool = b & SIGN_MASK != 0;
    if exp == 0x7ff {
        frac != 0 || neg
    } else if exp < 1022 {
        true
    } else if exp == 1022 {
        false
    } else if exp <= 1074 {
        mid_range_round_is_even(exp, frac, neg)
    } else {
        neg
    }
}

pub(crate) fn is_zero(b: u64) -> (r: bool)
    ensures
        r == is_zero_bits(b),
{
    b & ABS_MASK == 0
}

pub(crate) fn is_non_finite(b: u64) -> (r: bool)
    ensures
        r == is_non_finite_bits(b),
{
    b & EXP_MASK == EXP_MASK
}

pub(crate) fn lt_zero(b: u64) -> (r: bool)
    ensures
        r == lt_zero_bits(b),
{
    b & SIGN_MASK != 0 && !(b & ABS_MASK == 0) && !(b & EXP_MASK == EXP_MASK && b & FRAC_MASK != 0)
}

pub(crate) fn le_zero(b: u64) -> (r: bool)
    ensures
        r == le_zero_bits(b),
{
    is_zero(b) || lt_zero(b)
}

pub(crate) fn is_one(b: u64) -> (r: bool)
    ensures
        r == is_one_bits(b),
{
    b == ONE_BITS
}

pub(crate) fn round_is_even(b: u64) -> (r: bool)
    ensures
        r == round_is_even_bits(b),
{
    let exp: u64 = (b >> 52) & 0x7ff;
    let frac: u64 = b & FRAC_MASK;
    let neg: bool = b & SIGN_MASK != 0;
    if exp == 0x7ff {
        frac != 0 || neg
    } else if exp < 1022 {
        true
    } else if exp == 1022 {
        false
    } else if exp <= 1074 {
        let sh: u64 = 1075 - exp;
        let full: u64 = 0x0010_0000_0000_0000 | frac;
        proof {
            assert(1u64 << sh >= 1) by (bit_vector)
                requires
                    1 <= sh <= 52,
            ;
            assert(full >> sh < 0xffff_ffff_ffff_ffffu64) by (bit_vector)
                requires
                    sh >= 1,
            ;
        }
        let ipart: u64 = full >> sh;
        let half: u64 = 1u64 << (sh - 1);
        let low: u64 = full & ((1u64 << sh) - 1);
        let n: u64 = if low >= half { ipart + 1 } else { ipart };
        if n >= 0x8000_0000 {
            neg
        } else {
            n % 2 == 0
        }
    } else {
        neg
    }
}

/// Rounding two gives an even integer while rounding three gives an odd
/// one: a root of degree two is refused on a negative radicand, a root of
/// degree three never is.
pub proof fn lemma_degree_two_even_three_odd()
    ensures
        round_is_even_bits(0x4000_0000_0000_0000),
        !round_is_even_bits(0x4008_0000_0000_0000),
{
    assert(round_is_even_bits(0x4000_0000_0000_0000u64)) by (bit_vector);
    assert(!round_is_even_bits(0x4008_0000_0000_0000u64)) by (bit_vector);
}

/// In the shape of the root operation's domain condition: with degree two
/// (the pattern 0x4000_0000_0000_0000) the result is absent exactly on a
/// negative radicand, and with degree three (0x4008_0000_0000_0000) it is
/// never absent, whatever the radicand.
pub proof fn lemma_root_parity_decides(radicand: u64)
    ensures
        (lt_zero_bits(radicand) && round_is_even_bits(0x4000_0000_0000_0000)) == lt_zero_bits(
            radicand,
        ),
        !(lt_zero_bits(radicand) && round_is_even_bits(0x4008_0000_0000_0000)),
{
    lemma_degree_two_even_three_odd();
}

} // verus!
