use vstd::prelude::*;

verus! {

/// An IEEE-754 double-precision value, carried as its raw bit pattern.
///
/// Verus has no model of floating-point arithmetic, so this crate never
/// computes with the value itself: every operation is delegated to the
/// hardware through a trusted wrapper, and all contracts speak of the bit
/// patterns. Two values are the same number for the pipeline's purposes
/// exactly when their bit patterns are equal.
#[derive(Clone, Copy, PartialEq, Eq, Structural, Debug)]
pub struct Double {
    pub bits: u64,
}

/// Bit pattern of 0.0
pub const F_ZERO: u64 = 0x0;
/// Bit pattern of 1.0
pub const F_ONE: u64 = 0x3ff0_0000_0000_0000;
/// Bit pattern of 2.0
pub const F_TWO: u64 = 0x4000_0000_0000_0000;
/// Bit pattern of 10.0
pub const F_TEN: u64 = 0x4024_0000_0000_0000;
/// Bit pattern of 15.0
pub const F_FIFTEEN: u64 = 0x402e_0000_0000_0000;
/// Bit pattern of -1.0
pub const F_NEG_ONE: u64 = 0xbff0_0000_0000_0000;
/// Bit pattern of -1.5
pub const F_NEG_THREE_HALVES: u64 = 0xbff8_0000_0000_0000;
/// Bit pattern of -2.5
pub const F_NEG_FIVE_HALVES: u64 = 0xc004_0000_0000_0000;

/// Bit pattern of the IEEE-754 sum of the two operands.
pub uninterp spec fn add_bits(a: u64, b: u64) -> u64;

/// Bit pattern of the IEEE-754 difference of the two operands.
pub uninterp spec fn sub_bits(a: u64, b: u64) -> u64;

/// Bit pattern of the IEEE-754 product of the two operands.
pub uninterp spec fn mul_bits(a: u64, b: u64) -> u64;

/// Bit pattern of the IEEE-754 quotient of the two operands.
pub uninterp spec fn div_bits(a: u64, b: u64) -> u64;

/// Bit pattern of `a` raised to the power `b`.
pub uninterp spec fn pow_bits(a: u64, b: u64) -> u64;

/// Whether the number behind `a` is greater than or equal to the one behind
/// `b` under the IEEE-754 partial order (false whenever either is a NaN).
pub uninterp spec fn ge_bits(a: u64, b: u64) -> bool;

/// Bit pattern of the double nearest to the given integer (the conversion is
/// exact for every `u32`).
pub uninterp spec fn u32_bits(x: u32) -> u64;

/// Relies on IEEE-754 double addition (`+` on the primitive float type): the
/// result depends on the operands alone. `num::complex::Complex64::new` only
/// carries the two operands from their bit patterns to the operation.
#[verifier::external_body]
pub(crate) fn fadd(a: Double, b: Double) -> (r: Double)
    ensures
        r.bits == add_bits(a.bits, b.bits),
{
    let x = num::traits::FromBytes::from_le_bytes(&a.bits.to_le_bytes());
    let y = num::traits::FromBytes::from_le_bytes(&b.bits.to_le_bytes());
    let c = num::complex::Complex64::new(x, y);
    Double { bits: (c.re + c.im).to_bits() }
}

/// Relies on IEEE-754 double subtraction (`-`): the result depends on the
/// operands alone.
#[verifier::external_body]
pub(crate) fn fsub(a: Double, b: Double) -> (r: Double)
    ensures
        r.bits == sub_bits(a.bits, b.bits),
{
    let x = num::traits::FromBytes::from_le_bytes(&a.bits.to_le_bytes());
    let y = num::traits::FromBytes::from_le_bytes(&b.bits.to_le_bytes());
    let c = num::complex::Complex64::new(x, y);
    Double { bits: (c.re - c.im).to_bits() }
}

/// Relies on IEEE-754 double multiplication (`*`): the result depends on the
/// operands alone.
#[verifier::external_body]
pub(crate) fn fmul(a: Double, b: Double) -> (r: Double)
    ensures
        r.bits == mul_bits(a.bits, b.bits),
{
    let x = num::traits::FromBytes::from_le_bytes(&a.bits.to_le_bytes());
    let y = num::traits::FromBytes::from_le_bytes(&b.bits.to_le_bytes());
    let c = num::complex::Complex64::new(x, y);
    Double { bits: (c.re * c.im).to_bits() }
}

/// Relies on IEEE-754 double division (`/`): the result depends on the
/// operands alone (division by zero yields an infinity, not a fault).
#[verifier::external_body]
pub(crate) fn fdiv(a: Double, b: Double) -> (r: Double)
    ensures
        r.bits == div_bits(a.bits, b.bits),
{
    let x = num::traits::FromBytes::from_le_bytes(&a.bits.to_le_bytes());
    let y = num::traits::FromBytes::from_le_bytes(&b.bits.to_le_bytes());
    let c = num::complex::Complex64::new(x, y);
    Double { bits: (c.re / c.im).to_bits() }
}

/// Relies on the standard library's `powf` for doubles: for a fixed build the
/// result depends on the operands alone.
#[verifier::external_body]
pub(crate) fn fpow(a: Double, b: Double) -> (r: Double)
    ensures
        r.bits == pow_bits(a.bits, b.bits),
{
    let x = num::traits::FromBytes::from_le_bytes(&a.bits.to_le_bytes());
    let y = num::traits::FromBytes::from_le_bytes(&b.bits.to_le_bytes());
    let c = num::complex::Complex64::new(x, y);
    Double { bits: c.re.powf(c.im).to_bits() }
}

/// Relies on the IEEE-754 `>=` comparison for doubles: the answer depends on
/// the operands alone, and is false whenever either operand is a NaN.
#[verifier::external_body]
pub(crate) fn fge(a: Double, b: Double) -> (r: bool)
    ensures
        r == ge_bits(a.bits, b.bits),
{
    let x = num::traits::FromBytes::from_le_bytes(&a.bits.to_le_bytes());
    let y = num::traits::FromBytes::from_le_bytes(&b.bits.to_le_bytes());
    let c = num::complex::Complex64::new(x, y);
    c.re >= c.im
}

/// Relies on the standard integer-to-double conversion, which is exact and
/// depends on the integer alone.
#[verifier::external_body]
pub(crate) fn double_of_u32(x: u32) -> (r: Double)
    ensures
        r.bits == u32_bits(x),
{
    let c = num::complex::Complex64::new(x.into(), x.into());
    Double { bits: c.re.to_bits() }
}

/// Bit pattern of `a * (1 - u) + b * u`, the linear interpolation used both
/// for pixel-to-plane mapping and for scaling random draws into a range.
pub open spec fn spec_lerp(a: u64, b: u64, u: u64) -> u64 {
    add_bits(mul_bits(a, sub_bits(F_ONE, u)), mul_bits(b, u))
}

/// Linear interpolation between `a` and `b`, with weight `u`.
pub fn lerp(a: Double, b: Double, u: Double) -> (r: Double)
    ensures
        r.bits == spec_lerp(a.bits, b.bits, u.bits),
{
    let one = Double { bits: F_ONE };
    fadd(fmul(a, fsub(one, u)), fmul(b, u))
}

} // verus!
