use vstd::prelude::*;

verus! {

/// Sign bit of a single-precision bit pattern.
pub const SIGN_MASK: u32 = 0x8000_0000;

/// Exponent and mantissa bits of a single-precision bit pattern.
pub const MAGNITUDE_MASK: u32 = 0x7FFF_FFFF;

/// Magnitude bits of an infinity; any larger magnitude is a NaN.
pub const INFINITY_BITS: u32 = 0x7F80_0000;

/// Bit pattern of the single-precision value nearest 0.7, the square
/// wave's upper level.
pub const HIGH_LEVEL_BITS: u32 = 0x3F33_3333;

/// Bit pattern of the single-precision value nearest -0.7, the square
/// wave's lower level.
pub const LOW_LEVEL_BITS: u32 = 0xBF33_3333;

/// Bit pattern of positive zero, the square wave's level where the sine is
/// exactly zero.
pub const ZERO_LEVEL_BITS: u32 = 0;

pub open spec fn is_nan_bits(b: u32) -> bool {
    b & MAGNITUDE_MASK > INFINITY_BITS
}

/// The value is strictly greater than zero.
pub open spec fn is_positive_bits(b: u32) -> bool {
    b & SIGN_MASK == 0 && b & MAGNITUDE_MASK != 0 && !is_nan_bits(b)
}

/// The value is strictly less than zero.
pub open spec fn is_negative_bits(b: u32) -> bool {
    b & SIGN_MASK != 0 && b & MAGNITUDE_MASK != 0 && !is_nan_bits(b)
}

/// Sign of a value as -1, 0 or 1; zeros of either sign and NaN count as 0,
/// since they compare neither above nor below zero.
pub open spec fn sign_of(b: u32) -> int {
    if is_positive_bits(b) {
        1
    } else if is_negative_bits(b) {
        -1
    } else {
        0
    }
}

/// The square wave's output level for a sign.
pub open spec fn level_bits(sign: int) -> u32 {
    if sign > 0 {
        HIGH_LEVEL_BITS
    } else if sign < 0 {
        LOW_LEVEL_BITS
    } else {
        ZERO_LEVEL_BITS
    }
}

/// The value with its sign bit flipped: its negation.
pub open spec fn negated_bits(b: u32) -> u32 {
    b ^ SIGN_MASK
}

/// Quantises one sine value, given as its single-precision bit pattern, to
/// a square-wave level: 0.7 where the sine is strictly positive, -0.7 where
/// it is strictly negative, and 0.0 otherwise.
pub fn square_quantize(sine_bits: u32) -> (r: u32)
    ensures
        r == level_bits(sign_of(sine_bits)),
        r == HIGH_LEVEL_BITS || r == ZERO_LEVEL_BITS || r == LOW_LEVEL_BITS,
        sign_of(r) == sign_of(sine_bits),
{
    proof {
        lemma_level_signs();
    }
    let magnitude = sine_bits & MAGNITUDE_MASK;
    if magnitude == 0 || magnitude > INFINITY_BITS {
        ZERO_LEVEL_BITS
    } else if sine_bits & SIGN_MASK == 0 {
        HIGH_LEVEL_BITS
    } else {
        LOW_LEVEL_BITS
    }
}

/// The three levels carry the signs they stand for.
proof fn lemma_level_signs()
    ensures
        sign_of(HIGH_LEVEL_BITS) == 1,
        sign_of(LOW_LEVEL_BITS) == -1,
        sign_of(ZERO_LEVEL_BITS) == 0,
{
    assert(HIGH_LEVEL_BITS & SIGN_MASK == 0 && HIGH_LEVEL_BITS & MAGNITUDE_MASK == 0x3F33_3333)
        by (bit_vector);
    assert(LOW_LEVEL_BITS & SIGN_MASK != 0 && LOW_LEVEL_BITS & MAGNITUDE_MASK == 0x3F33_3333)
        by (bit_vector);
    assert(ZERO_LEVEL_BITS & MAGNITUDE_MASK == 0) by (bit_vector);
}

/// Square-wave quantisation is odd: negating the sine value negates the
/// sign it is classified as, and so the level that comes out. Every level
/// is one of 0.7, 0.0 and -0.7.
pub proof fn lemma_square_antisymmetric(b: u32)
    ensures
        sign_of(negated_bits(b)) == -sign_of(b),
        sign_of(level_bits(sign_of(negated_bits(b)))) == -sign_of(level_bits(sign_of(b))),
        level_bits(sign_of(b)) == HIGH_LEVEL_BITS || level_bits(sign_of(b)) == ZERO_LEVEL_BITS
            || level_bits(sign_of(b)) == LOW_LEVEL_BITS,
{
    lemma_level_signs();
    assert((b ^ 0x8000_0000u32) & 0x7FFF_FFFFu32 == b & 0x7FFF_FFFFu32) by (bit_vector);
    assert(((b ^ 0x8000_0000u32) & 0x8000_0000u32 == 0) == (b & 0x8000_0000u32 != 0))
        by (bit_vector);
}

} // verus!
