//! A three-component coordinate triple for IEEE-754 single-precision scalars.
//!
//! Verus has no model of floating-point values, so each coordinate is carried
//! as the 32-bit pattern of an IEEE-754 single-precision number (the form
//! `f32::to_bits` produces). The two constructors keep every bit pattern
//! exactly as given, finite or not. Equality between vectors is IEEE-754
//! value equality, stated over the bit patterns and proved: a NaN coordinate
//! is unequal to everything, itself included, and the two signed zeroes are
//! equal to each other.

use vstd::prelude::*;

verus! {

/// The exponent field of a single-precision pattern.
pub const EXP_MASK: u32 = 0x7f80_0000;

/// The fraction (mantissa) field of a single-precision pattern.
pub const FRAC_MASK: u32 = 0x007f_ffff;

/// Everything but the sign bit.
pub const ABS_MASK: u32 = 0x7fff_ffff;

/// The pattern encodes a NaN: exponent saturated, fraction nonzero.
pub open spec fn is_nan_bits(b: u32) -> bool {
    b & EXP_MASK == EXP_MASK && b & FRAC_MASK != 0
}

/// The pattern encodes a zero of either sign.
pub open spec fn is_zero_bits(b: u32) -> bool {
    b & ABS_MASK == 0
}

/// The pattern encodes a finite number: neither a NaN nor an infinity.
pub open spec fn is_finite_bits(b: u32) -> bool {
    b & EXP_MASK != EXP_MASK
}

/// IEEE-754 equality of the values two patterns encode. Every value other
/// than zero has exactly one pattern, so two non-NaN patterns are equal as
/// values when they are equal as bits or both encode a zero.
pub open spec fn scalar_eq(a: u32, b: u32) -> bool {
    &&& !is_nan_bits(a)
    &&& !is_nan_bits(b)
    &&& (a == b || (is_zero_bits(a) && is_zero_bits(b)))
}

/// A point or direction in three-dimensional space: three independent
/// single-precision coordinates, each held as its bit pattern.
#[derive(Clone, Copy, Debug)]
pub struct Vector3 {
    pub x: u32,
    pub y: u32,
    pub z: u32,
}

/// IEEE-754 equality of two vectors: the three coordinate pairs are equal
/// as single-precision values.
pub open spec fn vec3_eq(a: Vector3, b: Vector3) -> bool {
    scalar_eq(a.x, b.x) && scalar_eq(a.y, b.y) && scalar_eq(a.z, b.z)
}

/// Decides IEEE-754 equality of the values two patterns encode.
fn scalar_eq_bits(a: u32, b: u32) -> (r: bool)
    ensures
        r == scalar_eq(a, b),
{
    let a_nan = a & EXP_MASK == EXP_MASK && a & FRAC_MASK != 0;
    let b_nan = b & EXP_MASK == EXP_MASK && b & FRAC_MASK != 0;
    !a_nan && !b_nan && (a == b || (a & ABS_MASK == 0 && b & ABS_MASK == 0))
}

impl Vector3 {
    /// Builds a vector from three coordinate patterns, kept bit for bit:
    /// no rounding, clamping, or other transformation, whatever the
    /// patterns encode.
    pub fn new(x: u32, y: u32, z: u32) -> (r: Vector3)
        ensures
            r.x == x,
            r.y == y,
            r.z == z,
    {
        Vector3 { x, y, z }
    }

    /// Builds the uniform vector: all three coordinates hold `value`,
    /// bit for bit.
    pub fn uniform(value: u32) -> (r: Vector3)
        ensures
            r.x == value,
            r.y == value,
            r.z == value,
    {
        Vector3 { x: value, y: value, z: value }
    }
}

impl PartialEq for Vector3 {
    /// IEEE-754 value equality, coordinate by coordinate.
    fn eq(&self, other: &Vector3) -> (r: bool) {
        scalar_eq_bits(self.x, other.x) && scalar_eq_bits(self.y, other.y)
            && scalar_eq_bits(self.z, other.z)
    }
}

impl vstd::std_specs::cmp::PartialEqSpecImpl for Vector3 {
    open spec fn obeys_eq_spec() -> bool {
        true
    }

    open spec fn eq_spec(&self, other: &Vector3) -> bool {
        vec3_eq(*self, *other)
    }
}

/// A uniform vector is the vector built by passing the same coordinate three
/// times: any value the one constructor may return for `v` equals any value
/// the other may return for `(v, v, v)`.
pub proof fn lemma_uniform_is_new(u: Vector3, n: Vector3, v: u32)
    requires
        u.x == v,
        u.y == v,
        u.z == v,
        n.x == v,
        n.y == v,
        n.z == v,
    ensures
        u == n,
{
}

/// Two vectors whose coordinates hold identical finite patterns are equal.
pub proof fn lemma_identical_finite_equal(a: Vector3, b: Vector3)
    requires
        is_finite_bits(a.x),
        is_finite_bits(a.y),
        is_finite_bits(a.z),
        a.x == b.x,
        a.y == b.y,
        a.z == b.z,
    ensures
        vec3_eq(a, b),
{
}

/// Two vectors that differ in at least one finite coordinate, as the
/// single-precision values the patterns encode, are unequal.
pub proof fn lemma_differing_finite_unequal(a: Vector3, b: Vector3)
    requires
        is_finite_bits(a.x) && is_finite_bits(a.y) && is_finite_bits(a.z),
        is_finite_bits(b.x) && is_finite_bits(b.y) && is_finite_bits(b.z),
        ({
            ||| a.x != b.x && !(is_zero_bits(a.x) && is_zero_bits(b.x))
            ||| a.y != b.y && !(is_zero_bits(a.y) && is_zero_bits(b.y))
            ||| a.z != b.z && !(is_zero_bits(a.z) && is_zero_bits(b.z))
        }),
    ensures
        !vec3_eq(a, b),
{
}

/// A vector with a NaN coordinate is unequal to itself: IEEE-754 equality
/// is not reflexive on NaN.
pub proof fn lemma_nan_not_reflexive(v: Vector3)
    requires
        is_nan_bits(v.x) || is_nan_bits(v.y) || is_nan_bits(v.z),
    ensures
        !vec3_eq(v, v),
{
}

} // verus!
