use vstd::prelude::*;

use vstd::std_specs::cmp::PartialEqSpecImpl;

verus! {

/// Whether an `f64` bit pattern is a NaN: all exponent bits set and a
/// fraction that is not zero.
pub open spec fn f64_bits_is_nan(bits: u64) -> bool {
    &&& bits & 0x7FF0_0000_0000_0000u64 == 0x7FF0_0000_0000_0000u64
    &&& bits & 0x000F_FFFF_FFFF_FFFFu64 != 0
}

/// Whether an `f64` bit pattern is `0.0` or `-0.0`: every bit but the sign
/// is clear.
pub open spec fn f64_bits_is_zero(bits: u64) -> bool {
    bits & 0x7FFF_FFFF_FFFF_FFFFu64 == 0
}

/// Whether two `f64` values, given by their bit patterns, are equal as
/// `f64` compares them: a NaN equals nothing, `0.0` equals `-0.0`, and other
/// values are equal when their bit patterns are.
pub open spec fn f64_bits_eq(a: u64, b: u64) -> bool {
    &&& !f64_bits_is_nan(a)
    &&& !f64_bits_is_nan(b)
    &&& (a == b || (f64_bits_is_zero(a) && f64_bits_is_zero(b)))
}

/// Whether an `f32` bit pattern is a NaN: all exponent bits set and a
/// fraction that is not zero.
pub open spec fn f32_bits_is_nan(bits: u32) -> bool {
    &&& bits & 0x7F80_0000u32 == 0x7F80_0000u32
    &&& bits & 0x007F_FFFFu32 != 0
}

/// Whether an `f32` bit pattern is `0.0` or `-0.0`.
pub open spec fn f32_bits_is_zero(bits: u32) -> bool {
    bits & 0x7FFF_FFFFu32 == 0
}

/// Whether two `f32` values, given by their bit patterns, are equal as
/// `f32` compares them.
pub open spec fn f32_bits_eq(a: u32, b: u32) -> bool {
    &&& !f32_bits_is_nan(a)
    &&& !f32_bits_is_nan(b)
    &&& (a == b || (f32_bits_is_zero(a) && f32_bits_is_zero(b)))
}

/// Float equality over bit patterns is symmetric, every value but a NaN
/// equals itself, and the two zeros are equal.
pub proof fn lemma_f64_bits_eq_properties(a: u64, b: u64)
    ensures
        f64_bits_eq(a, b) == f64_bits_eq(b, a),
        f64_bits_eq(a, a) <==> !f64_bits_is_nan(a),
        f64_bits_eq(0u64, 0x8000_0000_0000_0000u64),
{
    assert(0u64 & 0x7FF0_0000_0000_0000u64 == 0u64) by (bit_vector);
    assert(0x8000_0000_0000_0000u64 & 0x7FF0_0000_0000_0000u64 == 0u64) by (bit_vector);
    assert(0x8000_0000_0000_0000u64 & 0x7FFF_FFFF_FFFF_FFFFu64 == 0u64) by (bit_vector);
    assert(0u64 & 0x7FFF_FFFF_FFFF_FFFFu64 == 0u64) by (bit_vector);
}

/// An `f64` value, held as its IEEE-754 bit pattern (`f64::to_bits`).
///
/// `==` compares the values as `f64` does: a NaN equals nothing, and `0.0`
/// equals `-0.0`.
#[derive(Debug, Clone, Copy)]
pub struct F64Bits(pub u64);

impl PartialEq for F64Bits {
    fn eq(&self, other: &Self) -> (r: bool) {
        let a = self.0;
        let b = other.0;
        let a_nan = a & 0x7FF0_0000_0000_0000u64 == 0x7FF0_0000_0000_0000u64
            && a & 0x000F_FFFF_FFFF_FFFFu64 != 0;
        let b_nan = b & 0x7FF0_0000_0000_0000u64 == 0x7FF0_0000_0000_0000u64
            && b & 0x000F_FFFF_FFFF_FFFFu64 != 0;
        let both_zero = a & 0x7FFF_FFFF_FFFF_FFFFu64 == 0 && b & 0x7FFF_FFFF_FFFF_FFFFu64 == 0;
        !a_nan && !b_nan && (a == b || both_zero)
    }
}

impl PartialEqSpecImpl for F64Bits {
    open spec fn obeys_eq_spec() -> bool {
        true
    }

    open spec fn eq_spec(&self, other: &Self) -> bool {
        f64_bits_eq(self.0, other.0)
    }
}

/// An `f32` value, held as its IEEE-754 bit pattern (`f32::to_bits`).
///
/// `==` compares the values as `f32` does: a NaN equals nothing, and `0.0`
/// equals `-0.0`.
#[derive(Debug, Clone, Copy)]
pub struct F32Bits(pub u32);

impl PartialEq for F32Bits {
    fn eq(&self, other: &Self) -> (r: bool) {
        let a = self.0;
        let b = other.0;
        let a_nan = a & 0x7F80_0000u32 == 0x7F80_0000u32 && a & 0x007F_FFFFu32 != 0;
        let b_nan = b & 0x7F80_0000u32 == 0x7F80_0000u32 && b & 0x007F_FFFFu32 != 0;
        let both_zero = a & 0x7FFF_FFFFu32 == 0 && b & 0x7FFF_FFFFu32 == 0;
        !a_nan && !b_nan && (a == b || both_zero)
    }
}

impl PartialEqSpecImpl for F32Bits {
    open spec fn obeys_eq_spec() -> bool {
        true
    }

    open spec fn eq_spec(&self, other: &Self) -> bool {
        f32_bits_eq(self.0, other.0)
    }
}

} // verus!
