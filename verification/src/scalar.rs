//! Double-precision scalars carried by their IEEE-754 bit patterns.
//!
//! Verified code cannot reason about floating-point arithmetic, so a value is
//! held as the 64 bits of its representation. Arithmetic is delegated to
//! `libm` behind trusted wrappers, and each operation's result is named by an
//! uninterpreted spec function of the argument bits: contracts then pin down
//! exactly which operations are applied to which operands, while the numeric
//! value of each operation stays opaque. The purely structural parts of the
//! representation — the sign bit, the exponent field — are reasoned about
//! directly, so negation, absolute value and finiteness are verified, not
//! trusted. At the trusted boundary the bit patterns are reinterpreted as
//! doubles and back by `bytemuck::cast`, a plain same-size transmute.

use vstd::prelude::*;

verus! {

/// Mask of the sign bit of a double-precision bit pattern.
pub const SIGN_MASK: u64 = 0x8000_0000_0000_0000;
/// Mask of the exponent field of a double-precision bit pattern.
pub const EXPONENT_MASK: u64 = 0x7FF0_0000_0000_0000;
/// Mask of everything but the sign bit.
pub const MAGNITUDE_MASK: u64 = 0x7FFF_FFFF_FFFF_FFFF;
/// Bit pattern of positive zero.
pub const ZERO_BITS: u64 = 0;
/// Bit pattern of one.
pub const ONE_BITS: u64 = 0x3FF0_0000_0000_0000;
/// Bit pattern of minus one.
pub const NEG_ONE_BITS: u64 = 0xBFF0_0000_0000_0000;

/// The fused multiply-add `a * b + c` of the doubles the bit patterns carry,
/// as `libm::fma` computes it: exact product, one rounding of the sum.
pub uninterp spec fn fma_bits(a: u64, b: u64, c: u64) -> u64;

/// The square root of the double the bit pattern carries.
pub uninterp spec fn sqrt_bits(a: u64) -> u64;

/// The tangent of the double the bit pattern carries (radians).
pub uninterp spec fn tan_bits(a: u64) -> u64;

/// The natural logarithm of the double the bit pattern carries.
pub uninterp spec fn ln_bits(a: u64) -> u64;

/// The double the bit pattern carries, scaled by two to the power `n`.
pub uninterp spec fn scalbn_bits(a: u64, n: i32) -> u64;

/// Floating-point addition. `a * 1` is exact, so the fused sum is rounded
/// once, exactly as plain addition rounds it.
pub open spec fn add_bits(a: u64, b: u64) -> u64 {
    fma_bits(a, ONE_BITS, b)
}

/// Floating-point subtraction. `b * -1` is exact, so the fused sum `a - b`
/// is rounded once, exactly as plain subtraction rounds it.
pub open spec fn sub_bits(a: u64, b: u64) -> u64 {
    fma_bits(b, NEG_ONE_BITS, a)
}

/// Floating-point multiplication: the fused product with a zero addend is
/// rounded once, as a plain product is (a product that is exactly negative
/// zero comes out as positive zero).
pub open spec fn mul_bits(a: u64, b: u64) -> u64 {
    fma_bits(a, b, ZERO_BITS)
}

/// Half of the double the bit pattern carries; scaling by a power of two
/// rounds exactly as division by two does.
pub open spec fn half_bits(a: u64) -> u64 {
    scalbn_bits(a, -1i32)
}

/// Absolute value: the sign bit is cleared, every other bit is kept.
pub open spec fn abs_bits(a: u64) -> u64 {
    a & MAGNITUDE_MASK
}

/// Negation: the sign bit is flipped, every other bit is kept.
pub open spec fn neg_bits(a: u64) -> u64 {
    a ^ SIGN_MASK
}

/// A double is finite (zero, subnormal or normal) exactly when its exponent
/// field is not all ones.
pub open spec fn is_finite_bits(a: u64) -> bool {
    a & EXPONENT_MASK != EXPONENT_MASK
}

/// Relies on `libm::fma`: the fused multiply-add of the three doubles the bit
/// patterns carry, a function of the bits alone.
#[verifier::external_body]
fn fma_raw(a: u64, b: u64, c: u64) -> (r: u64)
    ensures
        r == fma_bits(a, b, c),
{
    bytemuck::cast(libm::fma(bytemuck::cast(a), bytemuck::cast(b), bytemuck::cast(c)))
}

/// Relies on `libm::sqrt`: the square root of the double the bit pattern
/// carries, a function of the bits alone.
#[verifier::external_body]
fn sqrt_raw(a: u64) -> (r: u64)
    ensures
        r == sqrt_bits(a),
{
    bytemuck::cast(libm::sqrt(bytemuck::cast(a)))
}

/// Relies on `libm::tan`: the tangent of the double the bit pattern carries,
/// a function of the bits alone.
#[verifier::external_body]
fn tan_raw(a: u64) -> (r: u64)
    ensures
        r == tan_bits(a),
{
    bytemuck::cast(libm::tan(bytemuck::cast(a)))
}

/// Relies on `libm::log`: the natural logarithm of the double the bit pattern
/// carries, a function of the bits alone.
#[verifier::external_body]
fn ln_raw(a: u64) -> (r: u64)
    ensures
        r == ln_bits(a),
{
    bytemuck::cast(libm::log(bytemuck::cast(a)))
}

/// Relies on `libm::scalbn`: the double the bit pattern carries, scaled by
/// two to the power `n`, a function of the arguments alone.
#[verifier::external_body]
fn scalbn_raw(a: u64, n: i32) -> (r: u64)
    ensures
        r == scalbn_bits(a, n),
{
    bytemuck::cast(libm::scalbn(bytemuck::cast(a), n))
}

/// A double-precision floating-point value, carried by its bit pattern.
#[derive(Clone, Copy, Debug, PartialEq, Eq, Structural)]
pub struct Scalar {
    pub bits: u64,
}

impl Scalar {
    /// The value whose representation is the given bit pattern.
    pub fn from_bits(bits: u64) -> (s: Scalar)
        ensures
            s.bits == bits,
    {
        Scalar { bits }
    }

    /// Positive zero.
    pub fn zero() -> (s: Scalar)
        ensures
            s.bits == ZERO_BITS,
    {
        Scalar { bits: ZERO_BITS }
    }

    /// The sum `self + other`.
    pub fn plus(self, other: Scalar) -> (r: Scalar)
        ensures
            r.bits == add_bits(self.bits, other.bits),
    {
        Scalar { bits: fma_raw(self.bits, ONE_BITS, other.bits) }
    }

    /// The difference `self - other`.
    pub fn minus(self, other: Scalar) -> (r: Scalar)
        ensures
            r.bits == sub_bits(self.bits, other.bits),
    {
        Scalar { bits: fma_raw(other.bits, NEG_ONE_BITS, self.bits) }
    }

    /// The product `self * other`.
    pub fn times(self, other: Scalar) -> (r: Scalar)
        ensures
            r.bits == mul_bits(self.bits, other.bits),
    {
        Scalar { bits: fma_raw(self.bits, other.bits, ZERO_BITS) }
    }

    /// Half of `self`.
    pub fn half(self) -> (r: Scalar)
        ensures
            r.bits == half_bits(self.bits),
    {
        Scalar { bits: scalbn_raw(self.bits, -1) }
    }

    /// The square root of `self`.
    pub fn sqrt(self) -> (r: Scalar)
        ensures
            r.bits == sqrt_bits(self.bits),
    {
        Scalar { bits: sqrt_raw(self.bits) }
    }

    /// The tangent of `self`, taken in radians.
    pub fn tan(self) -> (r: Scalar)
        ensures
            r.bits == tan_bits(self.bits),
    {
        Scalar { bits: tan_raw(self.bits) }
    }

    /// The natural logarithm of `self`.
    pub fn ln(self) -> (r: Scalar)
        ensures
            r.bits == ln_bits(self.bits),
    {
        Scalar { bits: ln_raw(self.bits) }
    }

    /// The absolute value of `self`: the sign bit cleared.
    pub fn abs(self) -> (r: Scalar)
        ensures
            r.bits == abs_bits(self.bits),
    {
        Scalar { bits: self.bits & MAGNITUDE_MASK }
    }

    /// `self` negated: the sign bit flipped.
    pub fn neg(self) -> (r: Scalar)
        ensures
            r.bits == neg_bits(self.bits),
    {
        Scalar { bits: self.bits ^ SIGN_MASK }
    }

    /// Whether `self` is finite: neither an infinity nor a not-a-number.
    pub fn is_finite(self) -> (r: bool)
        ensures
            r == is_finite_bits(self.bits),
    {
        self.bits & EXPONENT_MASK != EXPONENT_MASK
    }
}

} // verus!
