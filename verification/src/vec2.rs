//! Two-dimensional vectors carried as raw bit patterns of their `f32`
//! components. The movement logic is verified over names for the results of
//! the floating-point operations; the operations themselves are performed by
//! the linear-algebra crate behind trusted wrappers. Every name is a function
//! of the operand bits alone, which is what makes replay deterministic.

use vstd::prelude::*;

verus! {

/// A 2D vector, each component the bit pattern of an `f32`.
#[derive(Debug, Clone, Copy, PartialEq, Eq, Structural, Hash)]
pub struct Vec2Bits {
    pub x: u32,
    pub y: u32,
}

/// The bit pattern of `0.0f32` in both components.
pub open spec fn spec_zero_vec() -> Vec2Bits {
    Vec2Bits { x: 0, y: 0 }
}

impl Vec2Bits {
    pub fn zero() -> (r: Vec2Bits)
        ensures
            r == spec_zero_vec(),
    {
        Vec2Bits { x: 0, y: 0 }
    }

    pub open spec fn bits(self) -> (u32, u32) {
        (self.x, self.y)
    }

    pub open spec fn from_bits(t: (u32, u32)) -> Vec2Bits {
        Vec2Bits { x: t.0, y: t.1 }
    }
}

pub uninterp spec fn add_bits(a: (u32, u32), b: (u32, u32)) -> (u32, u32);

pub uninterp spec fn sub_bits(a: (u32, u32), b: (u32, u32)) -> (u32, u32);

pub uninterp spec fn scale_bits(v: (u32, u32), k: u32) -> (u32, u32);

pub uninterp spec fn dot_bits(a: (u32, u32), b: (u32, u32)) -> u32;

pub uninterp spec fn norm_bits(v: (u32, u32)) -> u32;

pub uninterp spec fn norm_sq_bits(v: (u32, u32)) -> u32;

pub uninterp spec fn unit_bits(v: (u32, u32)) -> (u32, u32);

pub uninterp spec fn div_bits(a: u32, b: u32) -> u32;

pub uninterp spec fn gt_bits(a: u32, b: u32) -> bool;

/// Relies on the componentwise vector addition of the linear-algebra crate.
#[verifier::external_body]
pub fn vec2_add(a: Vec2Bits, b: Vec2Bits) -> (r: Vec2Bits)
    ensures
        r.bits() == add_bits(a.bits(), b.bits()),
{
    let va = rapier2d::math::Vec2::new(rapier2d::math::Real::from_bits(a.x), rapier2d::math::Real::from_bits(a.y));
    let vb = rapier2d::math::Vec2::new(rapier2d::math::Real::from_bits(b.x), rapier2d::math::Real::from_bits(b.y));
    let s = va + vb;
    Vec2Bits { x: s.x.to_bits(), y: s.y.to_bits() }
}

/// Relies on the componentwise vector subtraction of the linear-algebra crate.
#[verifier::external_body]
pub fn vec2_sub(a: Vec2Bits, b: Vec2Bits) -> (r: Vec2Bits)
    ensures
        r.bits() == sub_bits(a.bits(), b.bits()),
{
    let va = rapier2d::math::Vec2::new(rapier2d::math::Real::from_bits(a.x), rapier2d::math::Real::from_bits(a.y));
    let vb = rapier2d::math::Vec2::new(rapier2d::math::Real::from_bits(b.x), rapier2d::math::Real::from_bits(b.y));
    let s = va - vb;
    Vec2Bits { x: s.x.to_bits(), y: s.y.to_bits() }
}

/// Relies on the vector-by-scalar multiplication of the linear-algebra crate.
#[verifier::external_body]
pub fn vec2_scale(v: Vec2Bits, k: u32) -> (r: Vec2Bits)
    ensures
        r.bits() == scale_bits(v.bits(), k),
{
    let vv = rapier2d::math::Vec2::new(rapier2d::math::Real::from_bits(v.x), rapier2d::math::Real::from_bits(v.y));
    let s = vv * rapier2d::math::Real::from_bits(k);
    Vec2Bits { x: s.x.to_bits(), y: s.y.to_bits() }
}

/// Relies on Vec2::dot of the linear-algebra crate.
#[verifier::external_body]
pub fn vec2_dot(a: Vec2Bits, b: Vec2Bits) -> (r: u32)
    ensures
        r == dot_bits(a.bits(), b.bits()),
{
    let va = rapier2d::math::Vec2::new(rapier2d::math::Real::from_bits(a.x), rapier2d::math::Real::from_bits(a.y));
    let vb = rapier2d::math::Vec2::new(rapier2d::math::Real::from_bits(b.x), rapier2d::math::Real::from_bits(b.y));
    va.dot(vb).to_bits()
}

/// Relies on Vec2::length of the linear-algebra crate: the Euclidean norm.
#[verifier::external_body]
pub fn vec2_norm(v: Vec2Bits) -> (r: u32)
    ensures
        r == norm_bits(v.bits()),
{
    let vv = rapier2d::math::Vec2::new(rapier2d::math::Real::from_bits(v.x), rapier2d::math::Real::from_bits(v.y));
    vv.length().to_bits()
}

/// Relies on Vec2::length_squared of the linear-algebra crate.
#[verifier::external_body]
pub fn vec2_norm_squared(v: Vec2Bits) -> (r: u32)
    ensures
        r == norm_sq_bits(v.bits()),
{
    let vv = rapier2d::math::Vec2::new(rapier2d::math::Real::from_bits(v.x), rapier2d::math::Real::from_bits(v.y));
    vv.length_squared().to_bits()
}

/// Relies on Vec2::normalize of the linear-algebra crate: the unit vector
/// with the same direction.
#[verifier::external_body]
pub fn vec2_normalize(v: Vec2Bits) -> (r: Vec2Bits)
    ensures
        r.bits() == unit_bits(v.bits()),
{
    let vv = rapier2d::math::Vec2::new(rapier2d::math::Real::from_bits(v.x), rapier2d::math::Real::from_bits(v.y));
    let s = vv.normalize();
    Vec2Bits { x: s.x.to_bits(), y: s.y.to_bits() }
}

/// Relies on the division of two `f32` values.
#[verifier::external_body]
pub fn f32_div(a: u32, b: u32) -> (r: u32)
    ensures
        r == div_bits(a, b),
{
    (rapier2d::math::Real::from_bits(a) / rapier2d::math::Real::from_bits(b)).to_bits()
}

/// Relies on the strict greater-than comparison of two `f32` values.
#[verifier::external_body]
pub fn f32_gt(a: u32, b: u32) -> (r: bool)
    ensures
        r == gt_bits(a, b),
{
    rapier2d::math::Real::from_bits(a) > rapier2d::math::Real::from_bits(b)
}

} // verus!
