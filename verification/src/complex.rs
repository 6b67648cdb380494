use vstd::prelude::*;

use crate::fp::{
    add_bits, fadd, fmul, fpow, fsub, mul_bits, pow_bits, sub_bits, Double, F_TWO, F_ZERO,
};

verus! {

/// A complex number whose real and imaginary parts are IEEE-754 doubles,
/// carried as bit patterns (see [`Double`]).
#[derive(Clone, Copy, PartialEq, Eq, Structural, Debug)]
pub struct Complex {
    pub re: Double,
    pub im: Double,
}

/// Real and imaginary bit patterns of the complex power `(re + i*im) ^ e`,
/// computed through polar coordinates as `num` does; for a fixed build the
/// result depends on the operands alone.
pub uninterp spec fn cpow_bits(re: u64, im: u64, e: u64) -> (u64, u64);

impl Complex {
    /// The complex number with the given component bit patterns.
    pub open spec fn spec_new(re: u64, im: u64) -> Complex {
        Complex { re: Double { bits: re }, im: Double { bits: im } }
    }

    pub fn new(re: Double, im: Double) -> (r: Complex)
        ensures
            r == Complex::spec_new(re.bits, im.bits),
    {
        Complex { re, im }
    }

    /// The origin, 0 + 0i.
    pub fn zero() -> (r: Complex)
        ensures
            r == Complex::spec_new(F_ZERO, F_ZERO),
    {
        Complex { re: Double { bits: F_ZERO }, im: Double { bits: F_ZERO } }
    }
}

/// Componentwise complex addition, as `num` defines `+` on complex values:
/// `(a + i b) + (c + i d) == (a + c) + i (b + d)`.
pub open spec fn spec_cadd(a: Complex, b: Complex) -> Complex {
    Complex::spec_new(add_bits(a.re.bits, b.re.bits), add_bits(a.im.bits, b.im.bits))
}

pub fn cadd(a: Complex, b: Complex) -> (r: Complex)
    ensures
        r == spec_cadd(a, b),
{
    Complex { re: fadd(a.re, b.re), im: fadd(a.im, b.im) }
}

/// Complex multiplication, as `num` defines `*` on complex values:
/// `(a + i b) * (c + i d) == (a*c - b*d) + i (a*d + b*c)`.
pub open spec fn spec_cmul(a: Complex, b: Complex) -> Complex {
    Complex::spec_new(
        sub_bits(mul_bits(a.re.bits, b.re.bits), mul_bits(a.im.bits, b.im.bits)),
        add_bits(mul_bits(a.re.bits, b.im.bits), mul_bits(a.im.bits, b.re.bits)),
    )
}

pub fn cmul(a: Complex, b: Complex) -> (r: Complex)
    ensures
        r == spec_cmul(a, b),
{
    Complex {
        re: fsub(fmul(a.re, b.re), fmul(a.im, b.im)),
        im: fadd(fmul(a.re, b.im), fmul(a.im, b.re)),
    }
}

/// A real scalar times a complex value, as `num` defines it:
/// `k * (c + i d) == (k*c) + i (k*d)`.
pub open spec fn spec_cscale(k: Double, c: Complex) -> Complex {
    Complex::spec_new(mul_bits(k.bits, c.re.bits), mul_bits(k.bits, c.im.bits))
}

pub fn cscale(k: Double, c: Complex) -> (r: Complex)
    ensures
        r == spec_cscale(k, c),
{
    Complex { re: fmul(k, c.re), im: fmul(k, c.im) }
}

/// A complex value plus a real scalar, as `num` defines it:
/// `(c + i d) + k == (c + k) + i d`.
pub open spec fn spec_cadd_real(c: Complex, k: Double) -> Complex {
    Complex::spec_new(add_bits(c.re.bits, k.bits), c.im.bits)
}

pub fn cadd_real(c: Complex, k: Double) -> (r: Complex)
    ensures
        r == spec_cadd_real(c, k),
{
    Complex { re: fadd(c.re, k), im: c.im }
}

/// The complex power as a [`Complex`] value.
pub open spec fn spec_cpow(c: Complex, e: Double) -> Complex {
    Complex::spec_new(
        cpow_bits(c.re.bits, c.im.bits, e.bits).0,
        cpow_bits(c.re.bits, c.im.bits, e.bits).1,
    )
}

/// Relies on `num::complex::Complex64::powf`: for a fixed build the result
/// depends on the base and exponent alone.
#[verifier::external_body]
pub(crate) fn cpow(c: Complex, e: Double) -> (r: Complex)
    ensures
        r.re.bits == cpow_bits(c.re.bits, c.im.bits, e.bits).0,
        r.im.bits == cpow_bits(c.re.bits, c.im.bits, e.bits).1,
        r == spec_cpow(c, e),
{
    let re = num::traits::FromBytes::from_le_bytes(&c.re.bits.to_le_bytes());
    let im = num::traits::FromBytes::from_le_bytes(&c.im.bits.to_le_bytes());
    let ex = num::traits::FromBytes::from_le_bytes(&e.bits.to_le_bytes());
    let z = num::complex::Complex64::new(re, im);
    let p = z.powf(ex);
    Complex { re: Double { bits: p.re.to_bits() }, im: Double { bits: p.im.to_bits() } }
}

/// Bit pattern of `re^2 + im^2`, the squared magnitude used by the escape
/// test (each square is taken with `powf`, as the kernel has always done).
pub open spec fn spec_abs_square(c: Complex) -> u64 {
    add_bits(pow_bits(c.re.bits, F_TWO), pow_bits(c.im.bits, F_TWO))
}

pub(crate) fn abs_square(c: Complex) -> (r: Double)
    ensures
        r.bits == spec_abs_square(c),
{
    let two = Double { bits: F_TWO };
    fadd(fpow(c.re, two), fpow(c.im, two))
}

} // verus!
