//! The scalar type: an IEEE-754 binary32 value carried by its bit pattern.
//!
//! Addition, subtraction, multiplication, division and square root of
//! binary32 values are not expressible directly here, so they are done by
//! the software floating-point implementation of the `softfp` crate,
//! behind trusted wrappers. Each trusted result is named by an
//! uninterpreted spec function over bit patterns; every contract in the
//! crate speaks of those names. The absolute value and the comparison
//! against zero are plain bit manipulation on the representation,
//! written and verified here.

use vstd::prelude::*;

verus! {

use softfp::ExceptionFlags;
use softfp::RoundingMode;
use softfp::F32;

#[verifier::external_type_specification]
#[verifier::external_body]
pub struct ExRoundingMode(RoundingMode);

#[verifier::external_type_specification]
#[verifier::external_body]
pub struct ExExceptionFlags(ExceptionFlags);

/// Relies on softfp::RoundingMode::TiesToEven: the rounding mode that
/// every arithmetic wrapper registers before its call.
#[verifier::external_body]
fn ties_to_even() -> RoundingMode {
    RoundingMode::TiesToEven
}

/// Receives and discards the IEEE exception flags that a softfp operation
/// raises; the library reads no flags.
#[verifier::external_body]
fn discard_flags(flags: ExceptionFlags) {
    let _ = flags;
}

/// A single-precision IEEE-754 value, represented by its 32 raw bits.
///
/// Equality of two `Scalar`s is equality of representations: it
/// distinguishes `+0.0` from `-0.0` and holds between identical NaN
/// patterns, unlike the floating-point `==`.
#[derive(Clone, Copy, PartialEq, Eq, Structural, Debug)]
pub struct Scalar {
    pub bits: u32,
}

/// The bit pattern of the binary32 sum of the two operands, rounded to
/// nearest, ties to even.
pub uninterp spec fn add_bits(a: u32, b: u32) -> u32;

/// The bit pattern of the binary32 difference of the two operands,
/// rounded to nearest, ties to even.
pub uninterp spec fn sub_bits(a: u32, b: u32) -> u32;

/// The bit pattern of the binary32 product of the two operands, rounded
/// to nearest, ties to even.
pub uninterp spec fn mul_bits(a: u32, b: u32) -> u32;

/// The bit pattern of the binary32 quotient of the two operands, rounded
/// to nearest, ties to even.
pub uninterp spec fn div_bits(a: u32, b: u32) -> u32;

/// The bit pattern of the binary32 square root of the operand, rounded
/// to nearest, ties to even.
pub uninterp spec fn sqrt_bits(a: u32) -> u32;

/// The sum of two scalars, as a spec-level value.
pub open spec fn spec_add(a: Scalar, b: Scalar) -> Scalar {
    Scalar { bits: add_bits(a.bits, b.bits) }
}

/// The difference of two scalars, as a spec-level value.
pub open spec fn spec_sub(a: Scalar, b: Scalar) -> Scalar {
    Scalar { bits: sub_bits(a.bits, b.bits) }
}

/// The product of two scalars, as a spec-level value.
pub open spec fn spec_mul(a: Scalar, b: Scalar) -> Scalar {
    Scalar { bits: mul_bits(a.bits, b.bits) }
}

/// The quotient of two scalars, as a spec-level value.
pub open spec fn spec_div(a: Scalar, b: Scalar) -> Scalar {
    Scalar { bits: div_bits(a.bits, b.bits) }
}

/// The square root of a scalar, as a spec-level value.
pub open spec fn spec_sqrt(a: Scalar) -> Scalar {
    Scalar { bits: sqrt_bits(a.bits) }
}

/// The binary32 patterns strictly greater than `+0.0` are exactly the
/// positive finite nonzero values together with positive infinity: sign
/// bit clear, and neither a zero nor a NaN pattern. Those are the
/// patterns from `0x0000_0001` (the smallest positive subnormal) up to
/// `0x7F80_0000` (positive infinity) inclusive.
pub open spec fn spec_gt_zero(a: Scalar) -> bool {
    1 <= a.bits <= 0x7F80_0000u32
}

/// The binary32 absolute value clears the sign bit and leaves the rest of
/// the representation untouched.
pub open spec fn spec_abs(a: Scalar) -> Scalar {
    Scalar { bits: a.bits & 0x7FFF_FFFFu32 }
}

/// The binary32 negation flips the sign bit and leaves the rest of the
/// representation untouched.
pub open spec fn spec_neg(a: Scalar) -> Scalar {
    Scalar { bits: a.bits ^ 0x8000_0000u32 }
}

/// A binary32 pattern is a NaN when its exponent field is all ones and
/// its fraction field is not zero.
pub open spec fn spec_is_nan(a: Scalar) -> bool {
    (a.bits & 0x7F80_0000u32) == 0x7F80_0000u32 && (a.bits & 0x007F_FFFFu32) != 0u32
}

/// The bit pattern of `0.0`.
pub const ZERO_BITS: u32 = 0x0000_0000;

/// The bit pattern of `1.0`.
pub const ONE_BITS: u32 = 0x3F80_0000;

/// The bit pattern of `-1.0`.
pub const NEG_ONE_BITS: u32 = 0xBF80_0000;

/// The bit pattern of `0.5`.
pub const HALF_BITS: u32 = 0x3F00_0000;

/// The bit pattern of `2.0`.
pub const TWO_BITS: u32 = 0x4000_0000;

/// The bit pattern of the canonical quiet NaN.
pub const NAN_BITS: u32 = 0x7FC0_0000;

impl Scalar {
    /// The value whose representation is the given raw bits.
    pub fn from_bits(bits: u32) -> (r: Scalar)
        ensures
            r.bits == bits,
    {
        Scalar { bits }
    }

    /// The raw bits of the representation.
    pub fn to_bits(self) -> (r: u32)
        ensures
            r == self.bits,
    {
        self.bits
    }

    /// The scalar `0.0`.
    pub fn zero() -> (r: Scalar)
        ensures
            r.bits == ZERO_BITS,
    {
        Scalar { bits: ZERO_BITS }
    }

    /// The scalar `1.0`.
    pub fn one() -> (r: Scalar)
        ensures
            r.bits == ONE_BITS,
    {
        Scalar { bits: ONE_BITS }
    }

    /// The scalar `-1.0`.
    pub fn neg_one() -> (r: Scalar)
        ensures
            r.bits == NEG_ONE_BITS,
    {
        Scalar { bits: NEG_ONE_BITS }
    }

    /// The scalar `0.5`.
    pub fn half() -> (r: Scalar)
        ensures
            r.bits == HALF_BITS,
    {
        Scalar { bits: HALF_BITS }
    }

    /// The scalar `2.0`.
    pub fn two() -> (r: Scalar)
        ensures
            r.bits == TWO_BITS,
    {
        Scalar { bits: TWO_BITS }
    }

    /// The canonical quiet NaN.
    pub fn nan() -> (r: Scalar)
        ensures
            r.bits == NAN_BITS,
            spec_is_nan(r),
    {
        proof {
            assert((0x7FC0_0000u32 & 0x7F80_0000u32) == 0x7F80_0000u32
                && (0x7FC0_0000u32 & 0x007F_FFFFu32) != 0u32) by (bit_vector);
        }
        Scalar { bits: NAN_BITS }
    }

    /// Relies on softfp::Fp::add for softfp::F32 (the `+` operator):
    /// IEEE-754 binary32 addition, rounded to nearest, ties to even.
    #[verifier::external_body]
    pub fn add(self, rhs: Scalar) -> (r: Scalar)
        ensures
            r.bits == add_bits(self.bits, rhs.bits),
    {
        softfp::register_get_rounding_mode(ties_to_even);
        softfp::register_set_exception_flags(discard_flags);
        let r = F32::new(self.bits) + F32::new(rhs.bits);
        Scalar { bits: r.0 }
    }

    /// Relies on softfp::Fp::sub for softfp::F32 (the `-` operator):
    /// IEEE-754 binary32 subtraction, rounded to nearest, ties to even.
    #[verifier::external_body]
    pub fn sub(self, rhs: Scalar) -> (r: Scalar)
        ensures
            r.bits == sub_bits(self.bits, rhs.bits),
    {
        softfp::register_get_rounding_mode(ties_to_even);
        softfp::register_set_exception_flags(discard_flags);
        let r = F32::new(self.bits) - F32::new(rhs.bits);
        Scalar { bits: r.0 }
    }

    /// Relies on softfp::Fp::mul for softfp::F32 (the `*` operator):
    /// IEEE-754 binary32 multiplication, rounded to nearest, ties to even.
    #[verifier::external_body]
    pub fn mul(self, rhs: Scalar) -> (r: Scalar)
        ensures
            r.bits == mul_bits(self.bits, rhs.bits),
    {
        softfp::register_get_rounding_mode(ties_to_even);
        softfp::register_set_exception_flags(discard_flags);
        let r = F32::new(self.bits) * F32::new(rhs.bits);
        Scalar { bits: r.0 }
    }

    /// Relies on softfp::Fp::div for softfp::F32 (the `/` operator):
    /// IEEE-754 binary32 division, rounded to nearest, ties to even.
    #[verifier::external_body]
    pub fn div(self, rhs: Scalar) -> (r: Scalar)
        ensures
            r.bits == div_bits(self.bits, rhs.bits),
    {
        softfp::register_get_rounding_mode(ties_to_even);
        softfp::register_set_exception_flags(discard_flags);
        let r = F32::new(self.bits) / F32::new(rhs.bits);
        Scalar { bits: r.0 }
    }

    /// Relies on softfp::Fp::square_root for softfp::F32: IEEE-754
    /// binary32 square root, rounded to nearest, ties to even.
    #[verifier::external_body]
    pub fn sqrt(self) -> (r: Scalar)
        ensures
            r.bits == sqrt_bits(self.bits),
    {
        softfp::register_get_rounding_mode(ties_to_even);
        softfp::register_set_exception_flags(discard_flags);
        let r = F32::new(self.bits).square_root();
        Scalar { bits: r.0 }
    }

    /// The square of the scalar, `self * self`.
    pub fn square(self) -> (r: Scalar)
        ensures
            r == spec_mul(self, self),
    {
        self.mul(self)
    }

    /// The absolute value: the same representation with the sign bit
    /// cleared, as IEEE-754 defines it. A NaN stays a NaN and keeps its
    /// payload.
    pub fn abs(self) -> (r: Scalar)
        ensures
            r == spec_abs(self),
    {
        Scalar { bits: self.bits & 0x7FFF_FFFFu32 }
    }

    /// The negation: the same representation with the sign bit flipped,
    /// as IEEE-754 defines it. A NaN stays a NaN and keeps its payload.
    pub fn neg(self) -> (r: Scalar)
        ensures
            r == spec_neg(self),
    {
        Scalar { bits: self.bits ^ 0x8000_0000u32 }
    }

    /// Whether the value is strictly greater than `+0.0`: true exactly of
    /// the positive nonzero non-NaN patterns, which form the contiguous
    /// range from the smallest positive subnormal to positive infinity.
    /// Zeroes of either sign, negative values and NaNs compare false.
    pub fn is_gt_zero(self) -> (r: bool)
        ensures
            r == spec_gt_zero(self),
    {
        1u32 <= self.bits && self.bits <= 0x7F80_0000u32
    }

    /// Whether the representation is a NaN: exponent field all ones with a
    /// nonzero fraction field.
    pub fn is_nan(self) -> (r: bool)
        ensures
            r == spec_is_nan(self),
    {
        (self.bits & 0x7F80_0000u32) == 0x7F80_0000u32 && (self.bits & 0x007F_FFFFu32) != 0u32
    }
}

/// Negation is an involution: flipping the sign bit twice gives back the
/// value, NaNs and zeroes included.
pub proof fn lemma_neg_involution(a: Scalar)
    ensures
        spec_neg(spec_neg(a)) == a,
{
    let b = a.bits;
    assert((b ^ 0x8000_0000u32) ^ 0x8000_0000u32 == b) by (bit_vector);
}

/// The absolute value is idempotent and never has the sign bit set.
pub proof fn lemma_abs_idempotent(a: Scalar)
    ensures
        spec_abs(spec_abs(a)) == spec_abs(a),
        spec_abs(a).bits & 0x8000_0000u32 == 0u32,
{
    let b = a.bits;
    assert((b & 0x7FFF_FFFFu32) & 0x7FFF_FFFFu32 == (b & 0x7FFF_FFFFu32)
        && (b & 0x7FFF_FFFFu32) & 0x8000_0000u32 == 0u32) by (bit_vector);
}

/// Negation and the absolute value touch only the sign bit, so neither
/// turns a NaN into a number nor a number into a NaN.
pub proof fn lemma_sign_ops_keep_nan(a: Scalar)
    ensures
        spec_is_nan(spec_neg(a)) == spec_is_nan(a),
        spec_is_nan(spec_abs(a)) == spec_is_nan(a),
{
    let b = a.bits;
    assert(((b ^ 0x8000_0000u32) & 0x7F80_0000u32) == (b & 0x7F80_0000u32)
        && ((b ^ 0x8000_0000u32) & 0x007F_FFFFu32) == (b & 0x007F_FFFFu32)
        && ((b & 0x7FFF_FFFFu32) & 0x7F80_0000u32) == (b & 0x7F80_0000u32)
        && ((b & 0x7FFF_FFFFu32) & 0x007F_FFFFu32) == (b & 0x007F_FFFFu32)) by (bit_vector);
}

/// The patterns strictly greater than zero are exactly the nonzero
/// patterns with the sign bit clear that are not NaN: the contiguous
/// range from the smallest positive subnormal to positive infinity.
pub proof fn lemma_gt_zero_characterization(a: Scalar)
    ensures
        spec_gt_zero(a) <==> (a.bits & 0x8000_0000u32 == 0u32 && a.bits != 0u32
            && !spec_is_nan(a)),
{
    let b = a.bits;
    assert((1u32 <= b && b <= 0x7F80_0000u32) <==> (b & 0x8000_0000u32 == 0u32 && b != 0u32
        && !(b & 0x7F80_0000u32 == 0x7F80_0000u32 && b & 0x007F_FFFFu32 != 0u32))) by (bit_vector);
}

} // verus!
