//! Binary64 floating-point values, held as their 64-bit patterns: one sign
//! bit, eleven exponent bits, fifty-two fraction bits. Every function here
//! works on the pattern with integer arithmetic.

use vstd::prelude::*;
use vstd::arithmetic::power2::{pow2, lemma_pow2_strictly_increases, lemma2_to64_rest, lemma_pow2_unfold};

verus! {

/// The decimal text of binary64 values. This library handles such values
/// as bit patterns and never computes with them as numbers, so the text of
/// one is asked of the caller. The text is a function of the pattern: what
/// is written for a value does not depend on when it is asked for.
pub trait FloatText {
    /// The decimal text of the value with the bit pattern `bits`, in ASCII
    /// and without a line feed.
    spec fn text_of(bits: u64) -> Vec<u8>;

    /// Computes [`FloatText::text_of`].
    fn decimal(bits: u64) -> (text: Vec<u8>)
        ensures
            text@ == Self::text_of(bits)@,
    ;
}

/// The decimal texts that `F` gives, as a function of the bit pattern.
pub open spec fn texts<F: FloatText>() -> spec_fn(u64) -> Seq<u8> {
    |bits: u64| F::text_of(bits)@
}

/// The sign bit, and the pattern of negative zero.
pub const SIGN_BIT: u64 = 0x8000_0000_0000_0000;

/// The pattern of positive infinity; a larger magnitude is not a number.
pub const INFINITY: u64 = 0x7FF0_0000_0000_0000;

/// The pattern of negative infinity.
pub const NEG_INFINITY: u64 = 0xFFF0_0000_0000_0000;

/// The pattern of the quiet not-a-number value.
pub const NAN: u64 = 0x7FF8_0000_0000_0000;

/// The pattern of 0.0.
pub const ZERO: u64 = 0;

/// The pattern of 1.0.
pub const ONE: u64 = 0x3FF0_0000_0000_0000;

/// The pattern of -1.0.
pub const NEG_ONE: u64 = 0xBFF0_0000_0000_0000;

/// The pattern of the largest finite value.
pub const MAX: u64 = 0x7FEF_FFFF_FFFF_FFFF;

/// The pattern of the smallest finite value.
pub const MIN: u64 = 0xFFEF_FFFF_FFFF_FFFF;

/// Two to the power 52: the hidden bit of a normal value's significand.
pub const HIDDEN_BIT: u64 = 0x10_0000_0000_0000;

/// Two to the power 53: one more than the largest numerator of a unit
/// fraction.
pub const UNIT_DENOMINATOR: u64 = 0x20_0000_0000_0000;

/// The pattern without its sign bit.
pub open spec fn magnitude(bits: u64) -> u64 {
    (bits % SIGN_BIT) as u64
}

/// Whether the sign bit of the pattern is set.
pub open spec fn is_negative(bits: u64) -> bool {
    bits >= SIGN_BIT
}

/// Whether the pattern is not a number.
pub open spec fn is_nan(bits: u64) -> bool {
    magnitude(bits) > INFINITY
}

/// Whether the value of `a` is less than the value of `b`. Nothing is less
/// than, or has anything less than, a pattern that is not a number; the two
/// zeros are equal.
pub open spec fn less_than(a: u64, b: u64) -> bool {
    !is_nan(a) && !is_nan(b) && if is_negative(a) {
        if is_negative(b) {
            magnitude(a) > magnitude(b)
        } else {
            magnitude(a) != 0 || magnitude(b) != 0
        }
    } else {
        !is_negative(b) && magnitude(a) < magnitude(b)
    }
}

/// Whether the value of `a` is greater than the value of `b`.
pub open spec fn greater_than(a: u64, b: u64) -> bool {
    less_than(b, a)
}

/// `bits` held to the interval from 0.0 to 1.0: a value below 0.0 gives
/// 0.0, one above 1.0 gives 1.0, and every other pattern, a pattern that is
/// not a number too, stays.
pub open spec fn clamp_unit(bits: u64) -> u64 {
    if less_than(bits, ZERO) {
        ZERO
    } else if greater_than(bits, ONE) {
        ONE
    } else {
        bits
    }
}

/// The pattern with the significand `m` scaled up to the hidden bit, the
/// exponent field going down by one for each doubling.
pub open spec fn pack(m: nat, exponent: int) -> int
    decreases 0x20_0000_0000_0000 - m,
{
    if m == 0 || m >= 0x10_0000_0000_0000 {
        exponent * 0x10_0000_0000_0000 + (m - 0x10_0000_0000_0000)
    } else {
        pack(2 * m, exponent - 1)
    }
}

/// The pattern of the value `k / 2^53`, for a numerator below `2^53`. Such
/// a value has an exact pattern: the fraction needs at most 53 bits.
pub open spec fn unit_fraction(k: nat) -> int {
    if k == 0 {
        0
    } else {
        pack(k, 1022)
    }
}

/// Exec form of [`magnitude`].
pub fn bits_magnitude(bits: u64) -> (m: u64)
    ensures
        m == magnitude(bits),
{
    bits % SIGN_BIT
}

/// Exec form of [`is_nan`].
pub fn bits_is_nan(bits: u64) -> (b: bool)
    ensures
        b == is_nan(bits),
{
    bits % SIGN_BIT > INFINITY
}

/// Exec form of [`less_than`].
pub fn bits_less_than(a: u64, b: u64) -> (r: bool)
    ensures
        r == less_than(a, b),
{
    if bits_is_nan(a) || bits_is_nan(b) {
        false
    } else if a >= SIGN_BIT {
        if b >= SIGN_BIT {
            bits_magnitude(a) > bits_magnitude(b)
        } else {
            bits_magnitude(a) != 0 || bits_magnitude(b) != 0
        }
    } else {
        b < SIGN_BIT && bits_magnitude(a) < bits_magnitude(b)
    }
}

/// Exec form of [`greater_than`].
pub fn bits_greater_than(a: u64, b: u64) -> (r: bool)
    ensures
        r == greater_than(a, b),
{
    bits_less_than(b, a)
}

/// Exec form of [`clamp_unit`].
pub fn bits_clamp_unit(bits: u64) -> (r: u64)
    ensures
        r == clamp_unit(bits),
{
    if bits_less_than(bits, ZERO) {
        ZERO
    } else if bits_greater_than(bits, ONE) {
        ONE
    } else {
        bits
    }
}

/// Exec form of [`unit_fraction`].
pub fn unit_fraction_bits(k: u64) -> (bits: u64)
    requires
        k < UNIT_DENOMINATOR,
    ensures
        bits == unit_fraction(k as nat),
        !is_nan(bits),
        !is_negative(bits),
        bits < ONE,
{
    if k == 0 {
        return 0;
    }
    let mut m: u64 = k;
    let mut exponent: u64 = 1022;
    let ghost mut doublings: nat = 0;
    proof {
        vstd::arithmetic::power2::lemma2_to64();
    }
    while m < HIDDEN_BIT
        invariant
            0 < m < UNIT_DENOMINATOR,
            exponent + doublings == 1022,
            doublings <= 52,
            m >= pow2(doublings),
            pack(m as nat, exponent as int) == pack(k as nat, 1022),
        decreases 0x20_0000_0000_0000 - m,
    {
        proof {
            lemma2_to64_rest();
            if doublings >= 52 {
                if doublings > 52 {
                    lemma_pow2_strictly_increases(52, doublings);
                }
                assert(false);
            }
            lemma_pow2_unfold(doublings + 1);
            doublings = doublings + 1;
        }
        m = 2 * m;
        exponent = exponent - 1;
    }
    let bits: u64 = exponent * HIDDEN_BIT + (m - HIDDEN_BIT);
    assert(bits % SIGN_BIT == bits);
    bits
}

} // verus!
