//! The choices each material makes when a ray strikes it.
//!
//! The caller computes directions and reflectances in double precision; these
//! functions decide from those numbers which way the scattered ray goes.
use vstd::prelude::*;
use crate::double::Double;
use crate::double::ONE_BITS;
use crate::double::ZERO_BITS;

verus! {

/// The pattern of 1e-8: below it in every component a direction is degenerate.
pub const NEAR_ZERO_BITS: u64 = 0x3E45_798E_E230_8C3A;

/// Every component is smaller than 1e-8 in absolute value.
pub open spec fn near_zero_spec(x: Double, y: Double, z: Double) -> bool {
    let limit = Double { bits: NEAR_ZERO_BITS };
    x.abs_lt_spec(limit) && y.abs_lt_spec(limit) && z.abs_lt_spec(limit)
}

/// Whether a scatter direction is too close to zero to be normalised; a
/// diffuse material then scatters along the surface normal instead.
pub fn near_zero(x: Double, y: Double, z: Double) -> (r: bool)
    ensures
        r == near_zero_spec(x, y, z),
{
    let limit = Double::from_bits(NEAR_ZERO_BITS);
    x.abs_lt(limit) && y.abs_lt(limit) && z.abs_lt(limit)
}

/// Whether a metal keeps its (fuzzed) reflection, given the reflection's dot
/// product with the surface normal: only a ray that leaves the surface
/// survives; any other is absorbed.
pub fn reflection_leaves(dot_normal: Double) -> (r: bool)
    ensures
        r == (Double { bits: ZERO_BITS }).lt_spec(dot_normal),
{
    Double::zero().lt(dot_normal)
}

/// Whether a sample from the unit ball must be negated to lie in the
/// hemisphere of the normal, given its dot product with the normal: it must
/// when that product is negative.
pub fn flip_into_hemisphere(dot_normal: Double) -> (r: bool)
    ensures
        r == dot_normal.lt_spec(Double { bits: ZERO_BITS }),
{
    dot_normal.lt(Double::zero())
}

/// The fuzz a metal keeps: its parameter clamped to `[0, 1]` (a NaN stays).
pub fn clamp_fuzz(fuzz: Double) -> (r: Double)
    ensures
        fuzz.lt_spec(Double { bits: ZERO_BITS }) ==> r.bits == ZERO_BITS,
        (Double { bits: ONE_BITS }).lt_spec(fuzz) ==> r.bits == ONE_BITS,
        !fuzz.lt_spec(Double { bits: ZERO_BITS }) && !(Double { bits: ONE_BITS }).lt_spec(fuzz)
            ==> r == fuzz,
        !r.nan() ==> (Double { bits: ZERO_BITS }).le_spec(r) && r.le_spec(Double { bits: ONE_BITS }),
{
    if fuzz.lt(Double::zero()) {
        Double::zero()
    } else if Double::one().lt(fuzz) {
        Double::one()
    } else {
        fuzz
    }
}

/// A cosine capped at 1: the smaller of the two, or 1 where the cosine is a
/// NaN.
pub fn cap_cosine(cos_theta: Double) -> (r: Double)
    ensures
        r == (if cos_theta.nan() || (Double { bits: ONE_BITS }).lt_spec(cos_theta) {
            Double { bits: ONE_BITS }
        } else {
            cos_theta
        }),
{
    if cos_theta.is_nan() || Double::one().lt(cos_theta) {
        Double::one()
    } else {
        cos_theta
    }
}

/// Whether glass reflects rather than refracts: under total internal
/// reflection (`ratio * sin_theta > 1`), or when a uniform draw in `[0, 1)`
/// falls below the Schlick reflectance.
pub fn glass_reflects(bent_sine: Double, reflectance: Double, draw: Double) -> (r: bool)
    ensures
        r == ((Double { bits: ONE_BITS }).lt_spec(bent_sine) || draw.lt_spec(reflectance)),
{
    Double::one().lt(bent_sine) || draw.lt(reflectance)
}

} // verus!
