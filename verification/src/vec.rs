//! Exact rational scalars and small vectors.
//!
//! Every numeric value of the core is a rational number held as integer
//! numerators over one positive denominator.  Keeping the arithmetic exact is
//! what lets the algebraic laws of the rotor and motor types be proved as
//! equalities rather than approximations; the floating-point world outside
//! the crate converts to and from these representations at the boundary.

use vstd::prelude::*;

verus! {

/// Mathematical model of a [`Ratio`]: one integer numerator over a positive
/// denominator.
#[verifier::ext_equal]
pub ghost struct RatioV {
    pub num: int,
    pub den: int,
}

/// Mathematical model of a [`Vec4`].
#[verifier::ext_equal]
pub ghost struct Vec4V {
    pub x: int,
    pub y: int,
    pub z: int,
    pub w: int,
    pub den: int,
}

/// Mathematical model of a [`Vec3`].
#[verifier::ext_equal]
pub ghost struct Vec3V {
    pub x: int,
    pub y: int,
    pub z: int,
    pub den: int,
}

pub open spec fn ratio_wf(a: RatioV) -> bool {
    a.den > 0
}

pub open spec fn v4_wf(a: Vec4V) -> bool {
    a.den > 0
}

pub open spec fn v3_wf(a: Vec3V) -> bool {
    a.den > 0
}

/// Two rationals denote the same number (cross multiplication).
pub open spec fn ratio_eq(a: RatioV, b: RatioV) -> bool {
    a.num * b.den == b.num * a.den
}

/// Two vectors denote the same point of Q^4, coordinate by coordinate.
pub open spec fn v4_eq(a: Vec4V, b: Vec4V) -> bool {
    &&& a.x * b.den == b.x * a.den
    &&& a.y * b.den == b.y * a.den
    &&& a.z * b.den == b.z * a.den
    &&& a.w * b.den == b.w * a.den
}

pub open spec fn v4_origin() -> Vec4V {
    Vec4V { x: 0, y: 0, z: 0, w: 0, den: 1 }
}

pub open spec fn v4_unit_x() -> Vec4V {
    Vec4V { x: 1, y: 0, z: 0, w: 0, den: 1 }
}

pub open spec fn v4_unit_y() -> Vec4V {
    Vec4V { x: 0, y: 1, z: 0, w: 0, den: 1 }
}

pub open spec fn v4_unit_z() -> Vec4V {
    Vec4V { x: 0, y: 0, z: 1, w: 0, den: 1 }
}

pub open spec fn v4_unit_w() -> Vec4V {
    Vec4V { x: 0, y: 0, z: 0, w: 1, den: 1 }
}

/// An exact rational scalar.
#[derive(Clone, Copy, Debug, PartialEq, Eq, Structural)]
pub struct Ratio {
    pub num: i128,
    pub den: i128,
}

impl View for Ratio {
    type V = RatioV;

    open spec fn view(&self) -> RatioV {
        RatioV { num: self.num as int, den: self.den as int }
    }
}

/// A vector of Q^4: four rational coordinates over one shared denominator.
#[derive(Clone, Copy, Debug, PartialEq, Eq, Structural)]
pub struct Vec4 {
    pub x: i128,
    pub y: i128,
    pub z: i128,
    pub w: i128,
    pub den: i128,
}

impl View for Vec4 {
    type V = Vec4V;

    open spec fn view(&self) -> Vec4V {
        Vec4V {
            x: self.x as int,
            y: self.y as int,
            z: self.z as int,
            w: self.w as int,
            den: self.den as int,
        }
    }
}

/// An RGB color with rational channels over one shared denominator.
#[derive(Clone, Copy, Debug, PartialEq, Eq, Structural)]
pub struct Vec3 {
    pub x: i128,
    pub y: i128,
    pub z: i128,
    pub den: i128,
}

impl View for Vec3 {
    type V = Vec3V;

    open spec fn view(&self) -> Vec3V {
        Vec3V { x: self.x as int, y: self.y as int, z: self.z as int, den: self.den as int }
    }
}

impl Ratio {
    pub fn new(num: i128, den: i128) -> (r: Ratio)
        requires
            den > 0,
        ensures
            r@ == (RatioV { num: num as int, den: den as int }),
    {
        Ratio { num, den }
    }
}

impl Vec4 {
    pub fn new(x: i128, y: i128, z: i128, w: i128, den: i128) -> (r: Vec4)
        requires
            den > 0,
        ensures
            r@ == (Vec4V { x: x as int, y: y as int, z: z as int, w: w as int, den: den as int }),
    {
        Vec4 { x, y, z, w, den }
    }

    pub fn origin() -> (r: Vec4)
        ensures
            r@ == v4_origin(),
    {
        Vec4 { x: 0, y: 0, z: 0, w: 0, den: 1 }
    }
}

impl Vec3 {
    pub fn new(x: i128, y: i128, z: i128, den: i128) -> (r: Vec3)
        requires
            den > 0,
        ensures
            r@ == (Vec3V { x: x as int, y: y as int, z: z as int, den: den as int }),
    {
        Vec3 { x, y, z, den }
    }
}

} // verus!
