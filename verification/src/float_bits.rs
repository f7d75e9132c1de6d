//! Classification of IEEE-754 values by their bit patterns.
//!
//! A single-precision pattern is 1 sign bit, 8 exponent bits and 23 mantissa
//! bits; a double-precision pattern is 1 sign bit, 11 exponent bits and 52
//! mantissa bits. A pattern is a NaN when its exponent bits are all set and
//! its mantissa is not zero, and an infinity when the mantissa is zero.
use vstd::prelude::*;

verus! {

/// Sign bit of a single-precision pattern.
pub const F32_SIGN: u32 = 0x8000_0000;

/// Exponent field of a single-precision pattern.
pub const F32_EXPONENT: u32 = 0x7F80_0000;

/// Mantissa field of a single-precision pattern.
pub const F32_MANTISSA: u32 = 0x007F_FFFF;

/// Most significant mantissa bit (bit 22) of a single-precision pattern: set in a quiet NaN.
pub const F32_QUIET: u32 = 0x0040_0000;

/// Sign bit and the mantissa bits below the quiet bit: flipping them in a
/// canonical NaN leaves every bit but possibly the sign bit set.
pub const F32_CANONICAL_MASK: u32 = 0x803F_FFFF;

/// Sign bit of a double-precision pattern.
pub const F64_SIGN: u64 = 0x8000_0000_0000_0000;

/// Exponent field of a double-precision pattern.
pub const F64_EXPONENT: u64 = 0x7FF0_0000_0000_0000;

/// Mantissa field of a double-precision pattern.
pub const F64_MANTISSA: u64 = 0x000F_FFFF_FFFF_FFFF;

/// Most significant mantissa bit (bit 51) of a double-precision pattern: set in a quiet NaN.
pub const F64_QUIET: u64 = 0x0008_0000_0000_0000;

/// Sign bit and the mantissa bits below the quiet bit of a double-precision pattern.
pub const F64_CANONICAL_MASK: u64 = 0x8007_FFFF_FFFF_FFFF;

/// Whether the single-precision pattern is a NaN: all exponent bits set, mantissa not zero.
pub open spec fn f32_nan(bits: u32) -> bool {
    bits & F32_EXPONENT == F32_EXPONENT && bits & F32_MANTISSA != 0
}

/// Whether the single-precision pattern is an infinity: all exponent bits set, mantissa zero.
pub open spec fn f32_infinite(bits: u32) -> bool {
    bits & F32_EXPONENT == F32_EXPONENT && bits & F32_MANTISSA == 0
}

/// Whether the sign bit of the single-precision pattern is set.
pub open spec fn f32_sign_negative(bits: u32) -> bool {
    bits & F32_SIGN != 0
}

/// Whether the single-precision pattern is a quiet NaN: a NaN with bit 22 set.
pub open spec fn f32_quiet_nan(bits: u32) -> bool {
    f32_nan(bits) && bits & F32_QUIET == F32_QUIET
}

/// Whether the single-precision pattern is a canonical NaN: flipping the bits of the
/// canonical mask in it leaves every bit set, but possibly the sign bit.
pub open spec fn f32_canonical_nan(bits: u32) -> bool {
    bits ^ F32_CANONICAL_MASK == 0xFFFF_FFFFu32 || bits ^ F32_CANONICAL_MASK == 0x7FFF_FFFFu32
}

/// Whether the double-precision pattern is a NaN: all exponent bits set, mantissa not zero.
pub open spec fn f64_nan(bits: u64) -> bool {
    bits & F64_EXPONENT == F64_EXPONENT && bits & F64_MANTISSA != 0
}

/// Whether the double-precision pattern is an infinity: all exponent bits set, mantissa zero.
pub open spec fn f64_infinite(bits: u64) -> bool {
    bits & F64_EXPONENT == F64_EXPONENT && bits & F64_MANTISSA == 0
}

/// Whether the sign bit of the double-precision pattern is set.
pub open spec fn f64_sign_negative(bits: u64) -> bool {
    bits & F64_SIGN != 0
}

/// Whether the double-precision pattern is a quiet NaN: a NaN with bit 51 set.
pub open spec fn f64_quiet_nan(bits: u64) -> bool {
    f64_nan(bits) && bits & F64_QUIET == F64_QUIET
}

/// Whether the double-precision pattern is a canonical NaN: flipping the bits of the
/// canonical mask in it leaves every bit set, but possibly the sign bit.
pub open spec fn f64_canonical_nan(bits: u64) -> bool {
    bits ^ F64_CANONICAL_MASK == 0xFFFF_FFFF_FFFF_FFFFu64 || bits ^ F64_CANONICAL_MASK
        == 0x7FFF_FFFF_FFFF_FFFFu64
}

/// Whether the single-precision pattern is a NaN.
pub fn f32_is_nan(bits: u32) -> (r: bool)
    ensures
        r == f32_nan(bits),
{
    bits & F32_EXPONENT == F32_EXPONENT && bits & F32_MANTISSA != 0
}

/// Whether the single-precision pattern is positive or negative infinity.
pub fn f32_is_infinite(bits: u32) -> (r: bool)
    ensures
        r == f32_infinite(bits),
{
    bits & F32_EXPONENT == F32_EXPONENT && bits & F32_MANTISSA == 0
}

/// Whether the sign bit of the single-precision pattern is set.
pub fn f32_is_sign_negative(bits: u32) -> (r: bool)
    ensures
        r == f32_sign_negative(bits),
{
    bits & F32_SIGN != 0
}

/// Whether the single-precision pattern is a NaN whose most significant mantissa bit is set.
pub fn f32_is_quiet_nan(bits: u32) -> (r: bool)
    ensures
        r == f32_quiet_nan(bits),
{
    f32_is_nan(bits) && bits & F32_QUIET == F32_QUIET
}

/// Whether the single-precision pattern is a canonical NaN of either sign.
pub fn f32_is_canonical_nan(bits: u32) -> (r: bool)
    ensures
        r == f32_canonical_nan(bits),
{
    let flipped: u32 = bits ^ F32_CANONICAL_MASK;
    flipped == 0xFFFF_FFFF || flipped == 0x7FFF_FFFF
}

/// Whether the double-precision pattern is a NaN.
pub fn f64_is_nan(bits: u64) -> (r: bool)
    ensures
        r == f64_nan(bits),
{
    bits & F64_EXPONENT == F64_EXPONENT && bits & F64_MANTISSA != 0
}

/// Whether the double-precision pattern is positive or negative infinity.
pub fn f64_is_infinite(bits: u64) -> (r: bool)
    ensures
        r == f64_infinite(bits),
{
    bits & F64_EXPONENT == F64_EXPONENT && bits & F64_MANTISSA == 0
}

/// Whether the sign bit of the double-precision pattern is set.
pub fn f64_is_sign_negative(bits: u64) -> (r: bool)
    ensures
        r == f64_sign_negative(bits),
{
    bits & F64_SIGN != 0
}

/// Whether the double-precision pattern is a NaN whose most significant mantissa bit is set.
pub fn f64_is_quiet_nan(bits: u64) -> (r: bool)
    ensures
        r == f64_quiet_nan(bits),
{
    f64_is_nan(bits) && bits & F64_QUIET == F64_QUIET
}

/// Whether the double-precision pattern is a canonical NaN of either sign.
pub fn f64_is_canonical_nan(bits: u64) -> (r: bool)
    ensures
        r == f64_canonical_nan(bits),
{
    let flipped: u64 = bits ^ F64_CANONICAL_MASK;
    flipped == 0xFFFF_FFFF_FFFF_FFFF || flipped == 0x7FFF_FFFF_FFFF_FFFF
}

/// A single-precision pattern with bit 22 clear is never a quiet NaN, whatever
/// its other bits; one with all exponent bits and bit 22 set always is.
pub proof fn lemma_f32_quiet_bit(bits: u32)
    ensures
        bits & (1u32 << 22) == 0 ==> !f32_quiet_nan(bits),
        bits & F32_EXPONENT == F32_EXPONENT && bits & (1u32 << 22) != 0 ==> f32_quiet_nan(bits),
        f32_nan(bits) ==> (f32_quiet_nan(bits) <==> bits & (1u32 << 22) != 0),
{
    assert(bits & (1u32 << 22) == 0 ==> bits & 0x0040_0000u32 != 0x0040_0000u32) by (bit_vector);
    assert(bits & (1u32 << 22) != 0 ==> bits & 0x0040_0000u32 == 0x0040_0000u32
        && bits & 0x007F_FFFFu32 != 0) by (bit_vector);
}

/// A double-precision pattern with bit 51 clear is never a quiet NaN, whatever
/// its other bits; one with all exponent bits and bit 51 set always is.
pub proof fn lemma_f64_quiet_bit(bits: u64)
    ensures
        bits & (1u64 << 51) == 0 ==> !f64_quiet_nan(bits),
        bits & F64_EXPONENT == F64_EXPONENT && bits & (1u64 << 51) != 0 ==> f64_quiet_nan(bits),
        f64_nan(bits) ==> (f64_quiet_nan(bits) <==> bits & (1u64 << 51) != 0),
{
    assert(bits & (1u64 << 51) == 0 ==> bits & 0x0008_0000_0000_0000u64
        != 0x0008_0000_0000_0000u64) by (bit_vector);
    assert(bits & (1u64 << 51) != 0 ==> bits & 0x0008_0000_0000_0000u64
        == 0x0008_0000_0000_0000u64 && bits & 0x000F_FFFF_FFFF_FFFFu64 != 0) by (bit_vector);
}

/// A single-precision pattern is a canonical NaN exactly when flipping the
/// bits of `0b1_00000000_01111111111111111111111` in it gives `0xFFFFFFFF` or
/// `0x7FFFFFFF`: that is, when it is `0x7FC00000` or `0xFFC00000`. Such a
/// pattern is a quiet NaN with no other mantissa bit set.
pub proof fn lemma_f32_canonical(bits: u32)
    ensures
        f32_canonical_nan(bits) <==> (bits ^ 0b1_00000000_01111111111111111111111u32
            == 0xFFFF_FFFFu32 || bits ^ 0b1_00000000_01111111111111111111111u32 == 0x7FFF_FFFFu32),
        f32_canonical_nan(bits) <==> (bits == 0x7FC0_0000u32 || bits == 0xFFC0_0000u32),
        f32_canonical_nan(bits) <==> (f32_quiet_nan(bits) && bits & F32_MANTISSA == F32_QUIET),
{
    assert((bits ^ 0x803F_FFFFu32 == 0xFFFF_FFFFu32) <==> bits == 0x7FC0_0000u32) by (bit_vector);
    assert((bits ^ 0x803F_FFFFu32 == 0x7FFF_FFFFu32) <==> bits == 0xFFC0_0000u32) by (bit_vector);
    assert((bits == 0x7FC0_0000u32 || bits == 0xFFC0_0000u32) <==> (bits & 0x7F80_0000u32
        == 0x7F80_0000u32 && bits & 0x007F_FFFFu32 != 0 && bits & 0x0040_0000u32 == 0x0040_0000u32
        && bits & 0x007F_FFFFu32 == 0x0040_0000u32)) by (bit_vector);
}

/// A double-precision pattern is a canonical NaN exactly when flipping its
/// sign bit and the 51 low mantissa bits gives all ones or all ones but the
/// sign bit: that is, when it is `0x7FF8000000000000` or `0xFFF8000000000000`.
/// Such a pattern is a quiet NaN with no other mantissa bit set.
pub proof fn lemma_f64_canonical(bits: u64)
    ensures
        f64_canonical_nan(bits) <==> (bits == 0x7FF8_0000_0000_0000u64 || bits
            == 0xFFF8_0000_0000_0000u64),
        f64_canonical_nan(bits) <==> (f64_quiet_nan(bits) && bits & F64_MANTISSA == F64_QUIET),
{
    assert((bits ^ 0x8007_FFFF_FFFF_FFFFu64 == 0xFFFF_FFFF_FFFF_FFFFu64) <==> bits
        == 0x7FF8_0000_0000_0000u64) by (bit_vector);
    assert((bits ^ 0x8007_FFFF_FFFF_FFFFu64 == 0x7FFF_FFFF_FFFF_FFFFu64) <==> bits
        == 0xFFF8_0000_0000_0000u64) by (bit_vector);
    assert((bits == 0x7FF8_0000_0000_0000u64 || bits == 0xFFF8_0000_0000_0000u64) <==> (bits
        & 0x7FF0_0000_0000_0000u64 == 0x7FF0_0000_0000_0000u64 && bits & 0x000F_FFFF_FFFF_FFFFu64
        != 0 && bits & 0x0008_0000_0000_0000u64 == 0x0008_0000_0000_0000u64 && bits
        & 0x000F_FFFF_FFFF_FFFFu64 == 0x0008_0000_0000_0000u64)) by (bit_vector);
}

/// No pattern is both a NaN and an infinity.
pub proof fn lemma_nan_not_infinite(single: u32, double: u64)
    ensures
        !(f32_nan(single) && f32_infinite(single)),
        !(f64_nan(double) && f64_infinite(double)),
        f32_infinite(single) <==> (single == 0x7F80_0000u32 || single == 0xFF80_0000u32),
        f64_infinite(double) <==> (double == 0x7FF0_0000_0000_0000u64 || double
            == 0xFFF0_0000_0000_0000u64),
{
    assert((single & 0x7F80_0000u32 == 0x7F80_0000u32 && single & 0x007F_FFFFu32 == 0) <==> (single
        == 0x7F80_0000u32 || single == 0xFF80_0000u32)) by (bit_vector);
    assert((double & 0x7FF0_0000_0000_0000u64 == 0x7FF0_0000_0000_0000u64 && double
        & 0x000F_FFFF_FFFF_FFFFu64 == 0) <==> (double == 0x7FF0_0000_0000_0000u64 || double
        == 0xFFF0_0000_0000_0000u64)) by (bit_vector);
}

} // verus!
