//! Rotors: pure rotations of 4-dimensional Euclidean space.
//!
//! A rotor is the even-grade element `s + b + q` of the geometric algebra
//! over four Euclidean basis directions, with a scalar part `s`, six
//! bivector (plane) parts `xy, xz, xw, yz, yw, zw` and one quadvector
//! (pseudoscalar) part `xyzw`.  It acts on direction vectors by the sandwich
//! product `reverse(r) * v * r`.  All eight coefficients are exact rationals:
//! integer numerators over one shared positive denominator, so composition
//! and reversal are exact and their laws are proved as equalities.
//!
//! A rotation by an angle in a coordinate plane is built from the cosine and
//! sine of *half* the angle ([`HalfAngle`]); rational points on the unit
//! circle are produced exactly from a rational half-tangent
//! ([`HalfAngle::from_half_tangent`]).

use vstd::prelude::*;

use crate::assoc::lemma_compose_assoc;
use crate::vec::{Vec4, Vec4V, v4_unit_x, v4_unit_y, v4_unit_z, v4_unit_w};

verus! {

/// Largest magnitude (numerators and denominator) accepted by operations
/// that multiply two coefficients, so that every product of two entries and
/// every eight-term sum of such products stays within `i128`.
pub const ENTRY_LIMIT: i128 = 0x2000_0000_0000_0000;

/// Largest magnitude accepted by operations that multiply three
/// coefficients (the direction and point sandwiches).
pub const SANDWICH_LIMIT: i128 = 0x100_0000_0000;

/// Mathematical model of a [`Rotor`]: eight integer numerators over one
/// positive denominator.
#[verifier::ext_equal]
pub ghost struct RotorV {
    pub s: int,
    pub xy: int,
    pub xz: int,
    pub xw: int,
    pub yz: int,
    pub yw: int,
    pub zw: int,
    pub xyzw: int,
    pub den: int,
}

/// The six coordinate planes a rotation can be generated in.
pub enum Plane {
    Xy,
    Xz,
    Xw,
    Yz,
    Yw,
    Zw,
}

pub open spec fn rv_wf(a: RotorV) -> bool {
    a.den > 0
}

/// All numerators and the denominator of `a` are bounded by `m`.
pub open spec fn rv_bounded(a: RotorV, m: int) -> bool {
    &&& -m <= a.s <= m
    &&& -m <= a.xy <= m
    &&& -m <= a.xz <= m
    &&& -m <= a.xw <= m
    &&& -m <= a.yz <= m
    &&& -m <= a.yw <= m
    &&& -m <= a.zw <= m
    &&& -m <= a.xyzw <= m
    &&& 0 < a.den <= m
}

/// The identity rotation.
pub open spec fn rv_id() -> RotorV {
    RotorV { s: 1, xy: 0, xz: 0, xw: 0, yz: 0, yw: 0, zw: 0, xyzw: 0, den: 1 }
}

/// Grade reversal: bivector parts change sign, scalar and quadvector parts
/// are kept.  For a unit rotor this is the inverse rotation.
pub open spec fn rv_rev(a: RotorV) -> RotorV {
    RotorV {
        s: a.s,
        xy: -a.xy,
        xz: -a.xz,
        xw: -a.xw,
        yz: -a.yz,
        yw: -a.yw,
        zw: -a.zw,
        xyzw: a.xyzw,
        den: a.den,
    }
}

/// Every numerator and the denominator scaled by `k`; for `k > 0` this
/// denotes the same rotation.
pub open spec fn rv_scale(a: RotorV, k: int) -> RotorV {
    RotorV {
        s: k * a.s,
        xy: k * a.xy,
        xz: k * a.xz,
        xw: k * a.xw,
        yz: k * a.yz,
        yw: k * a.yw,
        zw: k * a.zw,
        xyzw: k * a.xyzw,
        den: k * a.den,
    }
}

/// The geometric product `a * b` restricted to the rotor subalgebra.
/// As an operation on vectors it applies `a` first and `b` second.
pub open spec fn rv_mul(a: RotorV, b: RotorV) -> RotorV {
    RotorV {
        s: a.s * b.s - a.xw * b.xw - a.xy * b.xy + a.xyzw * b.xyzw - a.xz * b.xz - a.yw * b.yw - a.yz * b.yz - a.zw * b.zw,
        xy: a.s * b.xy - a.xw * b.yw + a.xy * b.s - a.xyzw * b.zw - a.xz * b.yz + a.yw * b.xw + a.yz * b.xz - a.zw * b.xyzw,
        xz: a.s * b.xz - a.xw * b.zw + a.xy * b.yz + a.xyzw * b.yw + a.xz * b.s + a.yw * b.xyzw - a.yz * b.xy + a.zw * b.xw,
        xw: a.s * b.xw + a.xw * b.s + a.xy * b.yw - a.xyzw * b.yz + a.xz * b.zw - a.yw * b.xy - a.yz * b.xyzw - a.zw * b.xz,
        yz: a.s * b.yz - a.xw * b.xyzw - a.xy * b.xz - a.xyzw * b.xw + a.xz * b.xy - a.yw * b.zw + a.yz * b.s + a.zw * b.yw,
        yw: a.s * b.yw + a.xw * b.xy - a.xy * b.xw + a.xyzw * b.xz + a.xz * b.xyzw + a.yw * b.s + a.yz * b.zw - a.zw * b.yz,
        zw: a.s * b.zw + a.xw * b.xz - a.xy * b.xyzw - a.xyzw * b.xy - a.xz * b.xw + a.yw * b.yz - a.yz * b.yw + a.zw * b.s,
        xyzw: a.s * b.xyzw + a.xw * b.yz + a.xy * b.zw + a.xyzw * b.s - a.xz * b.yw - a.yw * b.xz + a.yz * b.xw + a.zw * b.xy,
        den: a.den * b.den,
    }
}

/// Two rotor representations denote the same eight rational coefficients.
pub open spec fn rv_eq(a: RotorV, b: RotorV) -> bool {
    &&& a.s * b.den == b.s * a.den
    &&& a.xy * b.den == b.xy * a.den
    &&& a.xz * b.den == b.xz * a.den
    &&& a.xw * b.den == b.xw * a.den
    &&& a.yz * b.den == b.yz * a.den
    &&& a.yw * b.den == b.yw * a.den
    &&& a.zw * b.den == b.zw * a.den
    &&& a.xyzw * b.den == b.xyzw * a.den
}

/// A valid rotor in the sense of the unit-magnitude invariant:
/// `reverse(a) * a` is exactly the scalar one.
pub open spec fn rv_unit(a: RotorV) -> bool {
    rv_mul(rv_rev(a), a) == rv_scale(rv_id(), a.den * a.den)
}

/// The rotor generated in plane `p` from the cosine `c` and sine `s` of half
/// the rotation angle, over denominator `d`.
pub open spec fn rv_rotate(p: Plane, c: int, s: int, d: int) -> RotorV {
    match p {
        Plane::Xy => RotorV { s: c, xy: s, xz: 0, xw: 0, yz: 0, yw: 0, zw: 0, xyzw: 0, den: d },
        Plane::Xz => RotorV { s: c, xy: 0, xz: s, xw: 0, yz: 0, yw: 0, zw: 0, xyzw: 0, den: d },
        Plane::Xw => RotorV { s: c, xy: 0, xz: 0, xw: s, yz: 0, yw: 0, zw: 0, xyzw: 0, den: d },
        Plane::Yz => RotorV { s: c, xy: 0, xz: 0, xw: 0, yz: s, yw: 0, zw: 0, xyzw: 0, den: d },
        Plane::Yw => RotorV { s: c, xy: 0, xz: 0, xw: 0, yz: 0, yw: s, zw: 0, xyzw: 0, den: d },
        Plane::Zw => RotorV { s: c, xy: 0, xz: 0, xw: 0, yz: 0, yw: 0, zw: s, xyzw: 0, den: d },
    }
}

/// The image of direction `v` under the rotor `r`: the sandwich product
/// `reverse(r) * v * r`, with the unit-magnitude shortcut of the original
/// algebra kernel (the term `r.den * r.den * v` stands for the correction
/// `v . (1 - reverse(r) * r)`, which vanishes exactly when `r` is unit).
pub open spec fn rv_dir(r: RotorV, v: Vec4V) -> Vec4V {
    Vec4V {
        x: -2 * (v.w * r.s * r.xw) + 2 * (v.w * r.xy * r.yw) - 2 * (v.w * r.xyzw * r.yz) + 2 * (v.w * r.xz * r.zw) - 2 * (v.x * r.xw * r.xw) - 2 * (v.x * r.xy * r.xy) - 2 * (v.x * r.xyzw * r.xyzw) - 2 * (v.x * r.xz * r.xz) - 2 * (v.y * r.s * r.xy) - 2 * (v.y * r.xw * r.yw) - 2 * (v.y * r.xyzw * r.zw) - 2 * (v.y * r.xz * r.yz) - 2 * (v.z * r.s * r.xz) - 2 * (v.z * r.xw * r.zw) + 2 * (v.z * r.xy * r.yz) + 2 * (v.z * r.xyzw * r.yw) + r.den * r.den * v.x,
        y: -2 * (v.w * r.s * r.yw) - 2 * (v.w * r.xw * r.xy) + 2 * (v.w * r.xyzw * r.xz) + 2 * (v.w * r.yz * r.zw) + 2 * (v.x * r.s * r.xy) - 2 * (v.x * r.xw * r.yw) + 2 * (v.x * r.xyzw * r.zw) - 2 * (v.x * r.xz * r.yz) - 2 * (v.y * r.xy * r.xy) - 2 * (v.y * r.xyzw * r.xyzw) - 2 * (v.y * r.yw * r.yw) - 2 * (v.y * r.yz * r.yz) - 2 * (v.z * r.s * r.yz) - 2 * (v.z * r.xw * r.xyzw) - 2 * (v.z * r.xy * r.xz) - 2 * (v.z * r.yw * r.zw) + r.den * r.den * v.y,
        z: -2 * (v.w * r.s * r.zw) - 2 * (v.w * r.xw * r.xz) - 2 * (v.w * r.xy * r.xyzw) - 2 * (v.w * r.yw * r.yz) + 2 * (v.x * r.s * r.xz) - 2 * (v.x * r.xw * r.zw) + 2 * (v.x * r.xy * r.yz) - 2 * (v.x * r.xyzw * r.yw) + 2 * (v.y * r.s * r.yz) + 2 * (v.y * r.xw * r.xyzw) - 2 * (v.y * r.xy * r.xz) - 2 * (v.y * r.yw * r.zw) - 2 * (v.z * r.xyzw * r.xyzw) - 2 * (v.z * r.xz * r.xz) - 2 * (v.z * r.yz * r.yz) - 2 * (v.z * r.zw * r.zw) + r.den * r.den * v.z,
        w: -2 * (v.w * r.xw * r.xw) - 2 * (v.w * r.xyzw * r.xyzw) - 2 * (v.w * r.yw * r.yw) - 2 * (v.w * r.zw * r.zw) + 2 * (v.x * r.s * r.xw) + 2 * (v.x * r.xy * r.yw) + 2 * (v.x * r.xyzw * r.yz) + 2 * (v.x * r.xz * r.zw) + 2 * (v.y * r.s * r.yw) - 2 * (v.y * r.xw * r.xy) - 2 * (v.y * r.xyzw * r.xz) + 2 * (v.y * r.yz * r.zw) + 2 * (v.z * r.s * r.zw) - 2 * (v.z * r.xw * r.xz) + 2 * (v.z * r.xy * r.xyzw) - 2 * (v.z * r.yw * r.yz) + r.den * r.den * v.w,
        den: r.den * r.den * v.den,
    }
}

/// Multiplies two bounded coefficients; the bound keeps eight-term sums of
/// such products representable.
pub(crate) fn mul_ll(a: i128, b: i128) -> (r: i128)
    requires
        -ENTRY_LIMIT <= a <= ENTRY_LIMIT,
        -ENTRY_LIMIT <= b <= ENTRY_LIMIT,
    ensures
        r == a * b,
        -(ENTRY_LIMIT * ENTRY_LIMIT) <= r <= ENTRY_LIMIT * ENTRY_LIMIT,
        (a > 0 && b > 0) ==> r > 0,
{
    proof {
        assert((-(ENTRY_LIMIT * ENTRY_LIMIT) <= a * b <= ENTRY_LIMIT * ENTRY_LIMIT) && ((a > 0
            && b > 0) ==> a * b > 0))
            by (nonlinear_arith)
            requires
                -ENTRY_LIMIT <= a <= ENTRY_LIMIT,
                -ENTRY_LIMIT <= b <= ENTRY_LIMIT,
        ;
    }
    a * b
}

/// Multiplies three bounded coefficients, for the degree-three sandwich
/// formulas.
pub(crate) fn mul3(a: i128, b: i128, c: i128) -> (r: i128)
    requires
        -SANDWICH_LIMIT <= a <= SANDWICH_LIMIT,
        -SANDWICH_LIMIT <= b <= SANDWICH_LIMIT,
        -SANDWICH_LIMIT <= c <= SANDWICH_LIMIT,
    ensures
        r == a * b * c,
        -(SANDWICH_LIMIT * (SANDWICH_LIMIT * SANDWICH_LIMIT)) <= r <= SANDWICH_LIMIT * (
        SANDWICH_LIMIT * SANDWICH_LIMIT),
        (a > 0 && b > 0 && c > 0) ==> r > 0,
{
    proof {
        assert((-(SANDWICH_LIMIT * (SANDWICH_LIMIT * SANDWICH_LIMIT)) <= a * b * c
            <= SANDWICH_LIMIT * (SANDWICH_LIMIT * SANDWICH_LIMIT)) && (-(SANDWICH_LIMIT
            * SANDWICH_LIMIT) <= a * b <= SANDWICH_LIMIT * SANDWICH_LIMIT) && ((a > 0 && b > 0 && c
            > 0) ==> a * b * c > 0)) by (nonlinear_arith)
            requires
                -SANDWICH_LIMIT <= a <= SANDWICH_LIMIT,
                -SANDWICH_LIMIT <= b <= SANDWICH_LIMIT,
                -SANDWICH_LIMIT <= c <= SANDWICH_LIMIT,
        ;
    }
    a * b * c
}

/// The cosine and sine of half a rotation angle, over one positive
/// denominator.  The rotation constructors consume these instead of an
/// angle, since the crate has no trigonometry; a caller that starts from an
/// angle in radians computes the pair outside, or builds an exactly unit
/// pair from a rational half-tangent with [`HalfAngle::from_half_tangent`].
#[derive(Clone, Copy, Debug, PartialEq, Eq, Structural)]
pub struct HalfAngle {
    pub cos: i128,
    pub sin: i128,
    pub den: i128,
}

impl HalfAngle {
    /// The pair lies exactly on the unit circle.
    pub open spec fn is_unit(self) -> bool {
        self.cos * self.cos + self.sin * self.sin == self.den * self.den
    }

    pub open spec fn wf(self) -> bool {
        self.den > 0
    }

    /// The half angle of the zero rotation.
    pub fn zero() -> (r: HalfAngle)
        ensures
            r.cos == 1 && r.sin == 0 && r.den == 1,
            r.is_unit(),
            r.wf(),
    {
        HalfAngle { cos: 1, sin: 0, den: 1 }
    }

    /// Builds an exactly unit pair from the rational half-tangent `n / d` of
    /// half the angle (so `n / d == tan(angle / 4)` for the full rotation
    /// angle): `cos = d^2 - n^2`, `sin = 2 n d`, `den = d^2 + n^2`.
    pub fn from_half_tangent(n: i64, d: i64) -> (r: HalfAngle)
        requires
            0 < d <= 0x4000_0000,
            -0x4000_0000 <= n <= 0x4000_0000,
        ensures
            r.cos == d * d - n * n,
            r.sin == 2 * n * d,
            r.den == d * d + n * n,
            r.is_unit(),
            r.wf(),
            r.den <= 0x8000_0000_0000_0000,
    {
        let nn: i128 = n as i128;
        let dd: i128 = d as i128;
        proof {
            assert((dd * dd - nn * nn) * (dd * dd - nn * nn) + (2 * nn * dd) * (2 * nn * dd) == (dd
                * dd + nn * nn) * (dd * dd + nn * nn) && 0 <= nn * nn <= 0x1000_0000_0000_0000
                && 0 < dd * dd <= 0x1000_0000_0000_0000 && -0x2000_0000_0000_0000 <= 2 * nn * dd
                <= 0x2000_0000_0000_0000) by (nonlinear_arith)
                requires
                    0 < dd <= 0x4000_0000,
                    -0x4000_0000 <= nn <= 0x4000_0000,
            ;
        }
        HalfAngle { cos: dd * dd - nn * nn, sin: 2 * nn * dd, den: dd * dd + nn * nn }
    }

    /// The same magnitude of angle, turning the opposite way.
    pub fn negated(self) -> (r: HalfAngle)
        requires
            self.sin != i128::MIN,
        ensures
            r.cos == self.cos && r.sin == -self.sin && r.den == self.den,
            self.is_unit() ==> r.is_unit(),
            self.wf() ==> r.wf(),
    {
        proof {
            assert(self.is_unit() ==> (self.cos * self.cos + (-self.sin) * (-self.sin) == self.den
                * self.den)) by (nonlinear_arith);
        }
        HalfAngle { cos: self.cos, sin: -self.sin, den: self.den }
    }
}

/// A pure rotation of 4-dimensional space: exact rational coefficients of
/// the even subalgebra, one shared positive denominator.
#[derive(Clone, Copy, Debug, PartialEq, Eq, Structural)]
pub struct Rotor {
    pub s: i128,
    pub xy: i128,
    pub xz: i128,
    pub xw: i128,
    pub yz: i128,
    pub yw: i128,
    pub zw: i128,
    pub xyzw: i128,
    pub den: i128,
}

impl View for Rotor {
    type V = RotorV;

    open spec fn view(&self) -> RotorV {
        RotorV {
            s: self.s as int,
            xy: self.xy as int,
            xz: self.xz as int,
            xw: self.xw as int,
            yz: self.yz as int,
            yw: self.yw as int,
            zw: self.zw as int,
            xyzw: self.xyzw as int,
            den: self.den as int,
        }
    }
}

impl Rotor {
    /// The identity rotation.
    pub fn identity() -> (r: Rotor)
        ensures
            r@ == rv_id(),
            rv_unit(r@),
    {
        proof {
            lemma_id_unit();
        }
        Rotor { s: 1, xy: 0, xz: 0, xw: 0, yz: 0, yw: 0, zw: 0, xyzw: 0, den: 1 }
    }

    /// The rotation in the xy plane whose half angle has the given
    /// cosine and sine.
    pub fn rotate_xy(half: HalfAngle) -> (r: Rotor)
        requires
            half.wf(),
        ensures
            r@ == rv_rotate(Plane::Xy, half.cos as int, half.sin as int, half.den as int),
            half.is_unit() ==> rv_unit(r@),
    {
        proof {
            lemma_rotate_unit(Plane::Xy, half.cos as int, half.sin as int, half.den as int);
        }
        Rotor { s: half.cos, xy: half.sin, xz: 0, xw: 0, yz: 0, yw: 0, zw: 0, xyzw: 0, den: half.den }
    }

    /// The rotation in the xz plane whose half angle has the given
    /// cosine and sine.
    pub fn rotate_xz(half: HalfAngle) -> (r: Rotor)
        requires
            half.wf(),
        ensures
            r@ == rv_rotate(Plane::Xz, half.cos as int, half.sin as int, half.den as int),
            half.is_unit() ==> rv_unit(r@),
    {
        proof {
            lemma_rotate_unit(Plane::Xz, half.cos as int, half.sin as int, half.den as int);
        }
        Rotor { s: half.cos, xy: 0, xz: half.sin, xw: 0, yz: 0, yw: 0, zw: 0, xyzw: 0, den: half.den }
    }

    /// The rotation in the xw plane whose half angle has the given
    /// cosine and sine.
    pub fn rotate_xw(half: HalfAngle) -> (r: Rotor)
        requires
            half.wf(),
        ensures
            r@ == rv_rotate(Plane::Xw, half.cos as int, half.sin as int, half.den as int),
            half.is_unit() ==> rv_unit(r@),
    {
        proof {
            lemma_rotate_unit(Plane::Xw, half.cos as int, half.sin as int, half.den as int);
        }
        Rotor { s: half.cos, xy: 0, xz: 0, xw: half.sin, yz: 0, yw: 0, zw: 0, xyzw: 0, den: half.den }
    }

    /// The rotation in the yz plane whose half angle has the given
    /// cosine and sine.
    pub fn rotate_yz(half: HalfAngle) -> (r: Rotor)
        requires
            half.wf(),
        ensures
            r@ == rv_rotate(Plane::Yz, half.cos as int, half.sin as int, half.den as int),
            half.is_unit() ==> rv_unit(r@),
    {
        proof {
            lemma_rotate_unit(Plane::Yz, half.cos as int, half.sin as int, half.den as int);
        }
        Rotor { s: half.cos, xy: 0, xz: 0, xw: 0, yz: half.sin, yw: 0, zw: 0, xyzw: 0, den: half.den }
    }

    /// The rotation in the yw plane whose half angle has the given
    /// cosine and sine.
    pub fn rotate_yw(half: HalfAngle) -> (r: Rotor)
        requires
            half.wf(),
        ensures
            r@ == rv_rotate(Plane::Yw, half.cos as int, half.sin as int, half.den as int),
            half.is_unit() ==> rv_unit(r@),
    {
        proof {
            lemma_rotate_unit(Plane::Yw, half.cos as int, half.sin as int, half.den as int);
        }
        Rotor { s: half.cos, xy: 0, xz: 0, xw: 0, yz: 0, yw: half.sin, zw: 0, xyzw: 0, den: half.den }
    }

    /// The rotation in the zw plane whose half angle has the given
    /// cosine and sine.
    pub fn rotate_zw(half: HalfAngle) -> (r: Rotor)
        requires
            half.wf(),
        ensures
            r@ == rv_rotate(Plane::Zw, half.cos as int, half.sin as int, half.den as int),
            half.is_unit() ==> rv_unit(r@),
    {
        proof {
            lemma_rotate_unit(Plane::Zw, half.cos as int, half.sin as int, half.den as int);
        }
        Rotor { s: half.cos, xy: 0, xz: 0, xw: 0, yz: 0, yw: 0, zw: half.sin, xyzw: 0, den: half.den }
    }

    /// The rotation that applies `self` first and `other` second; the
    /// geometric product `self * other`.  Not commutative.
    pub fn and_then(self, other: Rotor) -> (r: Rotor)
        requires
            rv_bounded(self@, ENTRY_LIMIT as int),
            rv_bounded(other@, ENTRY_LIMIT as int),
        ensures
            r@ == rv_mul(self@, other@),
            r.den > 0,
    {
        Rotor {
            s: mul_ll(self.s, other.s) - mul_ll(self.xw, other.xw) - mul_ll(self.xy, other.xy) + mul_ll(self.xyzw, other.xyzw) - mul_ll(self.xz, other.xz) - mul_ll(self.yw, other.yw) - mul_ll(self.yz, other.yz) - mul_ll(self.zw, other.zw),
            xy: mul_ll(self.s, other.xy) - mul_ll(self.xw, other.yw) + mul_ll(self.xy, other.s) - mul_ll(self.xyzw, other.zw) - mul_ll(self.xz, other.yz) + mul_ll(self.yw, other.xw) + mul_ll(self.yz, other.xz) - mul_ll(self.zw, other.xyzw),
            xz: mul_ll(self.s, other.xz) - mul_ll(self.xw, other.zw) + mul_ll(self.xy, other.yz) + mul_ll(self.xyzw, other.yw) + mul_ll(self.xz, other.s) + mul_ll(self.yw, other.xyzw) - mul_ll(self.yz, other.xy) + mul_ll(self.zw, other.xw),
            xw: mul_ll(self.s, other.xw) + mul_ll(self.xw, other.s) + mul_ll(self.xy, other.yw) - mul_ll(self.xyzw, other.yz) + mul_ll(self.xz, other.zw) - mul_ll(self.yw, other.xy) - mul_ll(self.yz, other.xyzw) - mul_ll(self.zw, other.xz),
            yz: mul_ll(self.s, other.yz) - mul_ll(self.xw, other.xyzw) - mul_ll(self.xy, other.xz) - mul_ll(self.xyzw, other.xw) + mul_ll(self.xz, other.xy) - mul_ll(self.yw, other.zw) + mul_ll(self.yz, other.s) + mul_ll(self.zw, other.yw),
            yw: mul_ll(self.s, other.yw) + mul_ll(self.xw, other.xy) - mul_ll(self.xy, other.xw) + mul_ll(self.xyzw, other.xz) + mul_ll(self.xz, other.xyzw) + mul_ll(self.yw, other.s) + mul_ll(self.yz, other.zw) - mul_ll(self.zw, other.yz),
            zw: mul_ll(self.s, other.zw) + mul_ll(self.xw, other.xz) - mul_ll(self.xy, other.xyzw) - mul_ll(self.xyzw, other.xy) - mul_ll(self.xz, other.xw) + mul_ll(self.yw, other.yz) - mul_ll(self.yz, other.yw) + mul_ll(self.zw, other.s),
            xyzw: mul_ll(self.s, other.xyzw) + mul_ll(self.xw, other.yz) + mul_ll(self.xy, other.zw) + mul_ll(self.xyzw, other.s) - mul_ll(self.xz, other.yw) - mul_ll(self.yw, other.xz) + mul_ll(self.yz, other.xw) + mul_ll(self.zw, other.xy),
            den: mul_ll(self.den, other.den),
        }
    }

    /// Grade reversal; for a unit rotor, the inverse rotation.
    pub fn reverse(self) -> (r: Rotor)
        requires
            self.s != i128::MIN,
            self.xy != i128::MIN,
            self.xz != i128::MIN,
            self.xw != i128::MIN,
            self.yz != i128::MIN,
            self.yw != i128::MIN,
            self.zw != i128::MIN,
        ensures
            r@ == rv_rev(self@),
    {
        Rotor {
            s: self.s,
            xy: -self.xy,
            xz: -self.xz,
            xw: -self.xw,
            yz: -self.yz,
            yw: -self.yw,
            zw: -self.zw,
            xyzw: self.xyzw,
            den: self.den,
        }
    }

    /// The image of the direction `v` under this rotation.
    #[verifier::rlimit(50)]
    pub fn transform_direction(self, v: Vec4) -> (r: Vec4)
        requires
            rv_bounded(self@, SANDWICH_LIMIT as int),
            -SANDWICH_LIMIT <= v.x <= SANDWICH_LIMIT,
            -SANDWICH_LIMIT <= v.y <= SANDWICH_LIMIT,
            -SANDWICH_LIMIT <= v.z <= SANDWICH_LIMIT,
            0 < v.den <= SANDWICH_LIMIT,
            -SANDWICH_LIMIT <= v.w <= SANDWICH_LIMIT,
        ensures
            r@ == rv_dir(self@, v@),
            r.den > 0,
    {
        Vec4 {
            x: -2 * mul3(v.w, self.s, self.xw) + 2 * mul3(v.w, self.xy, self.yw) - 2 * mul3(v.w, self.xyzw, self.yz) + 2 * mul3(v.w, self.xz, self.zw) - 2 * mul3(v.x, self.xw, self.xw) - 2 * mul3(v.x, self.xy, self.xy) - 2 * mul3(v.x, self.xyzw, self.xyzw) - 2 * mul3(v.x, self.xz, self.xz) - 2 * mul3(v.y, self.s, self.xy) - 2 * mul3(v.y, self.xw, self.yw) - 2 * mul3(v.y, self.xyzw, self.zw) - 2 * mul3(v.y, self.xz, self.yz) - 2 * mul3(v.z, self.s, self.xz) - 2 * mul3(v.z, self.xw, self.zw) + 2 * mul3(v.z, self.xy, self.yz) + 2 * mul3(v.z, self.xyzw, self.yw) + mul3(self.den, self.den, v.x),
            y: -2 * mul3(v.w, self.s, self.yw) - 2 * mul3(v.w, self.xw, self.xy) + 2 * mul3(v.w, self.xyzw, self.xz) + 2 * mul3(v.w, self.yz, self.zw) + 2 * mul3(v.x, self.s, self.xy) - 2 * mul3(v.x, self.xw, self.yw) + 2 * mul3(v.x, self.xyzw, self.zw) - 2 * mul3(v.x, self.xz, self.yz) - 2 * mul3(v.y, self.xy, self.xy) - 2 * mul3(v.y, self.xyzw, self.xyzw) - 2 * mul3(v.y, self.yw, self.yw) - 2 * mul3(v.y, self.yz, self.yz) - 2 * mul3(v.z, self.s, self.yz) - 2 * mul3(v.z, self.xw, self.xyzw) - 2 * mul3(v.z, self.xy, self.xz) - 2 * mul3(v.z, self.yw, self.zw) + mul3(self.den, self.den, v.y),
            z: -2 * mul3(v.w, self.s, self.zw) - 2 * mul3(v.w, self.xw, self.xz) - 2 * mul3(v.w, self.xy, self.xyzw) - 2 * mul3(v.w, self.yw, self.yz) + 2 * mul3(v.x, self.s, self.xz) - 2 * mul3(v.x, self.xw, self.zw) + 2 * mul3(v.x, self.xy, self.yz) - 2 * mul3(v.x, self.xyzw, self.yw) + 2 * mul3(v.y, self.s, self.yz) + 2 * mul3(v.y, self.xw, self.xyzw) - 2 * mul3(v.y, self.xy, self.xz) - 2 * mul3(v.y, self.yw, self.zw) - 2 * mul3(v.z, self.xyzw, self.xyzw) - 2 * mul3(v.z, self.xz, self.xz) - 2 * mul3(v.z, self.yz, self.yz) - 2 * mul3(v.z, self.zw, self.zw) + mul3(self.den, self.den, v.z),
            w: -2 * mul3(v.w, self.xw, self.xw) - 2 * mul3(v.w, self.xyzw, self.xyzw) - 2 * mul3(v.w, self.yw, self.yw) - 2 * mul3(v.w, self.zw, self.zw) + 2 * mul3(v.x, self.s, self.xw) + 2 * mul3(v.x, self.xy, self.yw) + 2 * mul3(v.x, self.xyzw, self.yz) + 2 * mul3(v.x, self.xz, self.zw) + 2 * mul3(v.y, self.s, self.yw) - 2 * mul3(v.y, self.xw, self.xy) - 2 * mul3(v.y, self.xyzw, self.xz) + 2 * mul3(v.y, self.yz, self.zw) + 2 * mul3(v.z, self.s, self.zw) - 2 * mul3(v.z, self.xw, self.xz) + 2 * mul3(v.z, self.xy, self.xyzw) - 2 * mul3(v.z, self.yw, self.yz) + mul3(self.den, self.den, v.w),
            den: mul3(self.den, self.den, v.den),
        }
    }

    /// The image of the canonical `x` basis direction under this rotation.
    pub fn forward(self) -> (r: Vec4)
        requires
            rv_bounded(self@, SANDWICH_LIMIT as int),
        ensures
            r@ == rv_dir(self@, v4_unit_x()),
            r.den > 0,
    {
        self.transform_direction(Vec4 { x: 1, y: 0, z: 0, w: 0, den: 1 })
    }

    /// The image of the canonical `y` basis direction under this rotation.
    pub fn up(self) -> (r: Vec4)
        requires
            rv_bounded(self@, SANDWICH_LIMIT as int),
        ensures
            r@ == rv_dir(self@, v4_unit_y()),
            r.den > 0,
    {
        self.transform_direction(Vec4 { x: 0, y: 1, z: 0, w: 0, den: 1 })
    }

    /// The image of the canonical `z` basis direction under this rotation.
    pub fn right(self) -> (r: Vec4)
        requires
            rv_bounded(self@, SANDWICH_LIMIT as int),
        ensures
            r@ == rv_dir(self@, v4_unit_z()),
            r.den > 0,
    {
        self.transform_direction(Vec4 { x: 0, y: 0, z: 1, w: 0, den: 1 })
    }

    /// The image of the canonical `w` basis direction under this rotation.
    pub fn ana(self) -> (r: Vec4)
        requires
            rv_bounded(self@, SANDWICH_LIMIT as int),
        ensures
            r@ == rv_dir(self@, v4_unit_w()),
            r.den > 0,
    {
        self.transform_direction(Vec4 { x: 0, y: 0, z: 0, w: 1, den: 1 })
    }

}

/// The identity representation is a valid (unit) rotor.
pub proof fn lemma_id_unit()
    ensures
        rv_unit(rv_id()),
{
    let m = rv_mul(rv_rev(rv_id()), rv_id());
    let k: int = rv_id().den * rv_id().den;
    assert(m.s == 1 && m.xy == 0 && m.xz == 0 && m.xw == 0 && m.yz == 0 && m.yw == 0 && m.zw == 0
        && m.xyzw == 0 && m.den == 1 && k == 1) by (nonlinear_arith)
        requires
            m == rv_mul(rv_rev(rv_id()), rv_id()),
            k == rv_id().den * rv_id().den,
    ;
    assert(rv_scale(rv_id(), k).s == 1 && rv_scale(rv_id(), k).xy == 0 && rv_scale(rv_id(), k).xz
        == 0 && rv_scale(rv_id(), k).xw == 0 && rv_scale(rv_id(), k).yz == 0 && rv_scale(
        rv_id(),
        k,
    ).yw == 0 && rv_scale(rv_id(), k).zw == 0 && rv_scale(rv_id(), k).xyzw == 0 && rv_scale(
        rv_id(),
        k,
    ).den == 1) by (nonlinear_arith)
        requires
            k == 1,
    ;
    assert(m =~= rv_scale(rv_id(), k));
}

/// A plane rotation built from a pair on the unit circle is a valid rotor.
pub proof fn lemma_rotate_unit(p: Plane, c: int, s: int, d: int)
    ensures
        c * c + s * s == d * d ==> rv_unit(rv_rotate(p, c, s, d)),
{
    let r = rv_rotate(p, c, s, d);
    let m = rv_mul(rv_rev(r), r);
    if c * c + s * s == d * d {
        assert(m.s == d * d && m.xyzw == 0 && m.xy == 0 && m.xz == 0 && m.xw == 0 && m.yz == 0
            && m.yw == 0 && m.zw == 0 && m.den == d * d) by (nonlinear_arith)
            requires
                m == rv_mul(rv_rev(rv_rotate(p, c, s, d)), rv_rotate(p, c, s, d)),
                c * c + s * s == d * d,
        ;
        assert(m =~= rv_scale(rv_id(), r.den * r.den)) by {
            assert(rv_scale(rv_id(), d * d).s == d * d && rv_scale(rv_id(), d * d).xy == 0
                && rv_scale(rv_id(), d * d).xz == 0 && rv_scale(rv_id(), d * d).xw == 0 && rv_scale(
                rv_id(),
                d * d,
            ).yz == 0 && rv_scale(rv_id(), d * d).yw == 0 && rv_scale(rv_id(), d * d).zw == 0
                && rv_scale(rv_id(), d * d).xyzw == 0 && rv_scale(rv_id(), d * d).den == d * d);
        }
    }
}

/// The identity rotation composes as a neutral element on both sides.
pub proof fn lemma_compose_identity(r: RotorV)
    ensures
        rv_mul(rv_id(), r) == r,
        rv_mul(r, rv_id()) == r,
{
    assert(rv_mul(rv_id(), r) =~= r);
    assert(rv_mul(r, rv_id()) =~= r);
}

/// Reversing twice gives the original rotor back.
pub proof fn lemma_reverse_involution(r: RotorV)
    ensures
        rv_rev(rv_rev(r)) == r,
{
    assert(rv_rev(rv_rev(r)) =~= r);
}

/// Composing a plane rotation with the rotation by the opposite angle in
/// the same plane yields the identity, whenever the half-angle pair lies on
/// the unit circle (a valid rotor).
pub proof fn lemma_rotate_inverse(p: Plane, c: int, s: int, d: int)
    requires
        c * c + s * s == d * d,
        d > 0,
    ensures
        rv_eq(rv_mul(rv_rotate(p, c, s, d), rv_rotate(p, c, -s, d)), rv_id()),
{
    let m = rv_mul(rv_rotate(p, c, s, d), rv_rotate(p, c, -s, d));
    assert(m.s == d * d && m.xy == 0 && m.xz == 0 && m.xw == 0 && m.yz == 0 && m.yw == 0 && m.zw
        == 0 && m.xyzw == 0 && m.den == d * d) by (nonlinear_arith)
        requires
            m == rv_mul(rv_rotate(p, c, s, d), rv_rotate(p, c, -s, d)),
            c * c + s * s == d * d,
    ;
}

/// Rotating by angle `a` and again by angle `b` in one plane equals the
/// single rotation by `a + b` in that plane: the product pair
/// `(c1 c2 - s1 s2, s1 c2 + c1 s2)` is exactly the angle-sum pair.
pub proof fn lemma_rotate_compose(p: Plane, c1: int, s1: int, d1: int, c2: int, s2: int, d2: int)
    ensures
        rv_mul(rv_rotate(p, c1, s1, d1), rv_rotate(p, c2, s2, d2)) == rv_rotate(
            p,
            c1 * c2 - s1 * s2,
            s1 * c2 + c1 * s2,
            d1 * d2,
        ),
{
    let m = rv_mul(rv_rotate(p, c1, s1, d1), rv_rotate(p, c2, s2, d2));
    let r = rv_rotate(p, c1 * c2 - s1 * s2, s1 * c2 + c1 * s2, d1 * d2);
    assert(m =~= r);
}

/// A unit rotor composed with a unit rotor is unit, with the
/// denominators multiplying: composition of valid rotors stays valid.
pub proof fn lemma_compose_unit(a: RotorV, b: RotorV)
    requires
        rv_unit(a),
        rv_unit(b),
    ensures
        rv_unit(rv_mul(a, b)),
{
    let ab = rv_mul(a, b);
    let k: int = a.den * a.den;
    let l: int = b.den * b.den;
    let ea = rv_scale(rv_id(), k);
    let eb = rv_scale(rv_id(), l);
    lemma_rev_mul(a, b);
    lemma_compose_assoc(rv_rev(b), rv_rev(a), ab);
    lemma_compose_assoc(rv_rev(a), a, b);
    lemma_scale_id_left(b, k);
    lemma_scale_id_right(b, k);
    assert(rv_mul(rv_rev(a), ab) == rv_mul(b, ea));
    lemma_compose_assoc(rv_rev(b), b, ea);
    lemma_scale_id_right(eb, k);
    lemma_scale_scale(rv_id(), l, k);
    assert(rv_mul(rv_rev(ab), ab) == rv_scale(rv_id(), l * k));
    assert(l * k == ab.den * ab.den) by (nonlinear_arith)
        requires
            k == a.den * a.den,
            l == b.den * b.den,
            ab.den == a.den * b.den,
    ;
}

/// Iterated scaling multiplies the factors.
pub proof fn lemma_scale_scale(a: RotorV, k: int, l: int)
    ensures
        rv_scale(rv_scale(a, k), l) == rv_scale(a, k * l),
{
    let lhs = rv_scale(rv_scale(a, k), l);
    let rhs = rv_scale(a, k * l);
    assert(lhs.s == rhs.s && lhs.xy == rhs.xy && lhs.xz == rhs.xz && lhs.xw == rhs.xw && lhs.yz
        == rhs.yz && lhs.yw == rhs.yw && lhs.zw == rhs.zw && lhs.xyzw == rhs.xyzw && lhs.den
        == rhs.den) by (nonlinear_arith)
        requires
            lhs == rv_scale(rv_scale(a, k), l),
            rhs == rv_scale(a, k * l),
    ;
    assert(lhs =~= rhs);
}

/// Every numerator of a valid rotor is bounded by its denominator: the
/// coefficients of a unit rotor all lie in `[-1, 1]`.
pub proof fn lemma_unit_entry_bound(a: RotorV)
    requires
        rv_unit(a),
        rv_wf(a),
    ensures
        rv_bounded(a, a.den),
{
    let m = rv_mul(rv_rev(a), a);
    assert(m.s == a.s * a.s + a.xy * a.xy + a.xz * a.xz + a.xw * a.xw + a.yz * a.yz + a.yw * a.yw
        + a.zw * a.zw + a.xyzw * a.xyzw) by (nonlinear_arith)
        requires
            m == rv_mul(rv_rev(a), a),
    ;
    assert(rv_bounded(a, a.den)) by (nonlinear_arith)
        requires
            a.s * a.s + a.xy * a.xy + a.xz * a.xz + a.xw * a.xw + a.yz * a.yz + a.yw * a.yw + a.zw
                * a.zw + a.xyzw * a.xyzw == a.den * a.den,
            a.den > 0,
    ;
}


/// Grade reversal is an anti-automorphism of the composition:
/// `reverse(a * b) == reverse(b) * reverse(a)`.
pub proof fn lemma_rev_mul(a: RotorV, b: RotorV)
    ensures
        rv_rev(rv_mul(a, b)) == rv_mul(rv_rev(b), rv_rev(a)),
{
    let lhs = rv_rev(rv_mul(a, b));
    let rhs = rv_mul(rv_rev(b), rv_rev(a));
    let rb = rv_rev(b);
    let ra = rv_rev(a);
    assert(lhs.s == rhs.s) by (nonlinear_arith)
        requires
            lhs.s == a.s * b.s - a.xw * b.xw - a.xy * b.xy + a.xyzw * b.xyzw - a.xz * b.xz - a.yw * b.yw - a.yz * b.yz - a.zw * b.zw,
            rhs.s == rb.s * ra.s - rb.xw * ra.xw - rb.xy * ra.xy + rb.xyzw * ra.xyzw - rb.xz * ra.xz - rb.yw * ra.yw - rb.yz * ra.yz - rb.zw * ra.zw,
            rb.s == b.s,
            ra.s == a.s,
            rb.xy == -b.xy,
            ra.xy == -a.xy,
            rb.xz == -b.xz,
            ra.xz == -a.xz,
            rb.xw == -b.xw,
            ra.xw == -a.xw,
            rb.yz == -b.yz,
            ra.yz == -a.yz,
            rb.yw == -b.yw,
            ra.yw == -a.yw,
            rb.zw == -b.zw,
            ra.zw == -a.zw,
            rb.xyzw == b.xyzw,
            ra.xyzw == a.xyzw;
    assert(lhs.xy == rhs.xy) by (nonlinear_arith)
        requires
            lhs.xy == -(a.s * b.xy - a.xw * b.yw + a.xy * b.s - a.xyzw * b.zw - a.xz * b.yz + a.yw * b.xw + a.yz * b.xz - a.zw * b.xyzw),
            rhs.xy == rb.s * ra.xy - rb.xw * ra.yw + rb.xy * ra.s - rb.xyzw * ra.zw - rb.xz * ra.yz + rb.yw * ra.xw + rb.yz * ra.xz - rb.zw * ra.xyzw,
            rb.s == b.s,
            ra.s == a.s,
            rb.xy == -b.xy,
            ra.xy == -a.xy,
            rb.xz == -b.xz,
            ra.xz == -a.xz,
            rb.xw == -b.xw,
            ra.xw == -a.xw,
            rb.yz == -b.yz,
            ra.yz == -a.yz,
            rb.yw == -b.yw,
            ra.yw == -a.yw,
            rb.zw == -b.zw,
            ra.zw == -a.zw,
            rb.xyzw == b.xyzw,
            ra.xyzw == a.xyzw;
    assert(lhs.xz == rhs.xz) by (nonlinear_arith)
        requires
            lhs.xz == -(a.s * b.xz - a.xw * b.zw + a.xy * b.yz + a.xyzw * b.yw + a.xz * b.s + a.yw * b.xyzw - a.yz * b.xy + a.zw * b.xw),
            rhs.xz == rb.s * ra.xz - rb.xw * ra.zw + rb.xy * ra.yz + rb.xyzw * ra.yw + rb.xz * ra.s + rb.yw * ra.xyzw - rb.yz * ra.xy + rb.zw * ra.xw,
            rb.s == b.s,
            ra.s == a.s,
            rb.xy == -b.xy,
            ra.xy == -a.xy,
            rb.xz == -b.xz,
            ra.xz == -a.xz,
            rb.xw == -b.xw,
            ra.xw == -a.xw,
            rb.yz == -b.yz,
            ra.yz == -a.yz,
            rb.yw == -b.yw,
            ra.yw == -a.yw,
            rb.zw == -b.zw,
            ra.zw == -a.zw,
            rb.xyzw == b.xyzw,
            ra.xyzw == a.xyzw;
    assert(lhs.xw == rhs.xw) by (nonlinear_arith)
        requires
            lhs.xw == -(a.s * b.xw + a.xw * b.s + a.xy * b.yw - a.xyzw * b.yz + a.xz * b.zw - a.yw * b.xy - a.yz * b.xyzw - a.zw * b.xz),
            rhs.xw == rb.s * ra.xw + rb.xw * ra.s + rb.xy * ra.yw - rb.xyzw * ra.yz + rb.xz * ra.zw - rb.yw * ra.xy - rb.yz * ra.xyzw - rb.zw * ra.xz,
            rb.s == b.s,
            ra.s == a.s,
            rb.xy == -b.xy,
            ra.xy == -a.xy,
            rb.xz == -b.xz,
            ra.xz == -a.xz,
            rb.xw == -b.xw,
            ra.xw == -a.xw,
            rb.yz == -b.yz,
            ra.yz == -a.yz,
            rb.yw == -b.yw,
            ra.yw == -a.yw,
            rb.zw == -b.zw,
            ra.zw == -a.zw,
            rb.xyzw == b.xyzw,
            ra.xyzw == a.xyzw;
    assert(lhs.yz == rhs.yz) by (nonlinear_arith)
        requires
            lhs.yz == -(a.s * b.yz - a.xw * b.xyzw - a.xy * b.xz - a.xyzw * b.xw + a.xz * b.xy - a.yw * b.zw + a.yz * b.s + a.zw * b.yw),
            rhs.yz == rb.s * ra.yz - rb.xw * ra.xyzw - rb.xy * ra.xz - rb.xyzw * ra.xw + rb.xz * ra.xy - rb.yw * ra.zw + rb.yz * ra.s + rb.zw * ra.yw,
            rb.s == b.s,
            ra.s == a.s,
            rb.xy == -b.xy,
            ra.xy == -a.xy,
            rb.xz == -b.xz,
            ra.xz == -a.xz,
            rb.xw == -b.xw,
            ra.xw == -a.xw,
            rb.yz == -b.yz,
            ra.yz == -a.yz,
            rb.yw == -b.yw,
            ra.yw == -a.yw,
            rb.zw == -b.zw,
            ra.zw == -a.zw,
            rb.xyzw == b.xyzw,
            ra.xyzw == a.xyzw;
    assert(lhs.yw == rhs.yw) by (nonlinear_arith)
        requires
            lhs.yw == -(a.s * b.yw + a.xw * b.xy - a.xy * b.xw + a.xyzw * b.xz + a.xz * b.xyzw + a.yw * b.s + a.yz * b.zw - a.zw * b.yz),
            rhs.yw == rb.s * ra.yw + rb.xw * ra.xy - rb.xy * ra.xw + rb.xyzw * ra.xz + rb.xz * ra.xyzw + rb.yw * ra.s + rb.yz * ra.zw - rb.zw * ra.yz,
            rb.s == b.s,
            ra.s == a.s,
            rb.xy == -b.xy,
            ra.xy == -a.xy,
            rb.xz == -b.xz,
            ra.xz == -a.xz,
            rb.xw == -b.xw,
            ra.xw == -a.xw,
            rb.yz == -b.yz,
            ra.yz == -a.yz,
            rb.yw == -b.yw,
            ra.yw == -a.yw,
            rb.zw == -b.zw,
            ra.zw == -a.zw,
            rb.xyzw == b.xyzw,
            ra.xyzw == a.xyzw;
    assert(lhs.zw == rhs.zw) by (nonlinear_arith)
        requires
            lhs.zw == -(a.s * b.zw + a.xw * b.xz - a.xy * b.xyzw - a.xyzw * b.xy - a.xz * b.xw + a.yw * b.yz - a.yz * b.yw + a.zw * b.s),
            rhs.zw == rb.s * ra.zw + rb.xw * ra.xz - rb.xy * ra.xyzw - rb.xyzw * ra.xy - rb.xz * ra.xw + rb.yw * ra.yz - rb.yz * ra.yw + rb.zw * ra.s,
            rb.s == b.s,
            ra.s == a.s,
            rb.xy == -b.xy,
            ra.xy == -a.xy,
            rb.xz == -b.xz,
            ra.xz == -a.xz,
            rb.xw == -b.xw,
            ra.xw == -a.xw,
            rb.yz == -b.yz,
            ra.yz == -a.yz,
            rb.yw == -b.yw,
            ra.yw == -a.yw,
            rb.zw == -b.zw,
            ra.zw == -a.zw,
            rb.xyzw == b.xyzw,
            ra.xyzw == a.xyzw;
    assert(lhs.xyzw == rhs.xyzw) by (nonlinear_arith)
        requires
            lhs.xyzw == a.s * b.xyzw + a.xw * b.yz + a.xy * b.zw + a.xyzw * b.s - a.xz * b.yw - a.yw * b.xz + a.yz * b.xw + a.zw * b.xy,
            rhs.xyzw == rb.s * ra.xyzw + rb.xw * ra.yz + rb.xy * ra.zw + rb.xyzw * ra.s - rb.xz * ra.yw - rb.yw * ra.xz + rb.yz * ra.xw + rb.zw * ra.xy,
            rb.s == b.s,
            ra.s == a.s,
            rb.xy == -b.xy,
            ra.xy == -a.xy,
            rb.xz == -b.xz,
            ra.xz == -a.xz,
            rb.xw == -b.xw,
            ra.xw == -a.xw,
            rb.yz == -b.yz,
            ra.yz == -a.yz,
            rb.yw == -b.yw,
            ra.yw == -a.yw,
            rb.zw == -b.zw,
            ra.zw == -a.zw,
            rb.xyzw == b.xyzw,
            ra.xyzw == a.xyzw;
    assert(lhs.den == rhs.den) by (nonlinear_arith)
        requires
            lhs.den == a.den * b.den,
            rhs.den == b.den * a.den;
    assert(lhs =~= rhs);
}

/// Composing the scaled identity on the left scales every entry.
pub proof fn lemma_scale_id_left(b: RotorV, k: int)
    ensures
        rv_mul(rv_scale(rv_id(), k), b) == rv_scale(b, k),
{
    let e = rv_scale(rv_id(), k);
    let lhs = rv_mul(e, b);
    let rhs = rv_scale(b, k);
    assert(lhs.s == rhs.s) by (nonlinear_arith)
        requires
            lhs.s == e.s * b.s - e.xw * b.xw - e.xy * b.xy + e.xyzw * b.xyzw - e.xz * b.xz - e.yw * b.yw - e.yz * b.yz - e.zw * b.zw,
            rhs.s == k * b.s,
            e.s == k,
            e.xy == 0,
            e.xz == 0,
            e.xw == 0,
            e.yz == 0,
            e.yw == 0,
            e.zw == 0,
            e.xyzw == 0,
            e.den == k;
    assert(lhs.xy == rhs.xy) by (nonlinear_arith)
        requires
            lhs.xy == e.s * b.xy - e.xw * b.yw + e.xy * b.s - e.xyzw * b.zw - e.xz * b.yz + e.yw * b.xw + e.yz * b.xz - e.zw * b.xyzw,
            rhs.xy == k * b.xy,
            e.s == k,
            e.xy == 0,
            e.xz == 0,
            e.xw == 0,
            e.yz == 0,
            e.yw == 0,
            e.zw == 0,
            e.xyzw == 0,
            e.den == k;
    assert(lhs.xz == rhs.xz) by (nonlinear_arith)
        requires
            lhs.xz == e.s * b.xz - e.xw * b.zw + e.xy * b.yz + e.xyzw * b.yw + e.xz * b.s + e.yw * b.xyzw - e.yz * b.xy + e.zw * b.xw,
            rhs.xz == k * b.xz,
            e.s == k,
            e.xy == 0,
            e.xz == 0,
            e.xw == 0,
            e.yz == 0,
            e.yw == 0,
            e.zw == 0,
            e.xyzw == 0,
            e.den == k;
    assert(lhs.xw == rhs.xw) by (nonlinear_arith)
        requires
            lhs.xw == e.s * b.xw + e.xw * b.s + e.xy * b.yw - e.xyzw * b.yz + e.xz * b.zw - e.yw * b.xy - e.yz * b.xyzw - e.zw * b.xz,
            rhs.xw == k * b.xw,
            e.s == k,
            e.xy == 0,
            e.xz == 0,
            e.xw == 0,
            e.yz == 0,
            e.yw == 0,
            e.zw == 0,
            e.xyzw == 0,
            e.den == k;
    assert(lhs.yz == rhs.yz) by (nonlinear_arith)
        requires
            lhs.yz == e.s * b.yz - e.xw * b.xyzw - e.xy * b.xz - e.xyzw * b.xw + e.xz * b.xy - e.yw * b.zw + e.yz * b.s + e.zw * b.yw,
            rhs.yz == k * b.yz,
            e.s == k,
            e.xy == 0,
            e.xz == 0,
            e.xw == 0,
            e.yz == 0,
            e.yw == 0,
            e.zw == 0,
            e.xyzw == 0,
            e.den == k;
    assert(lhs.yw == rhs.yw) by (nonlinear_arith)
        requires
            lhs.yw == e.s * b.yw + e.xw * b.xy - e.xy * b.xw + e.xyzw * b.xz + e.xz * b.xyzw + e.yw * b.s + e.yz * b.zw - e.zw * b.yz,
            rhs.yw == k * b.yw,
            e.s == k,
            e.xy == 0,
            e.xz == 0,
            e.xw == 0,
            e.yz == 0,
            e.yw == 0,
            e.zw == 0,
            e.xyzw == 0,
            e.den == k;
    assert(lhs.zw == rhs.zw) by (nonlinear_arith)
        requires
            lhs.zw == e.s * b.zw + e.xw * b.xz - e.xy * b.xyzw - e.xyzw * b.xy - e.xz * b.xw + e.yw * b.yz - e.yz * b.yw + e.zw * b.s,
            rhs.zw == k * b.zw,
            e.s == k,
            e.xy == 0,
            e.xz == 0,
            e.xw == 0,
            e.yz == 0,
            e.yw == 0,
            e.zw == 0,
            e.xyzw == 0,
            e.den == k;
    assert(lhs.xyzw == rhs.xyzw) by (nonlinear_arith)
        requires
            lhs.xyzw == e.s * b.xyzw + e.xw * b.yz + e.xy * b.zw + e.xyzw * b.s - e.xz * b.yw - e.yw * b.xz + e.yz * b.xw + e.zw * b.xy,
            rhs.xyzw == k * b.xyzw,
            e.s == k,
            e.xy == 0,
            e.xz == 0,
            e.xw == 0,
            e.yz == 0,
            e.yw == 0,
            e.zw == 0,
            e.xyzw == 0,
            e.den == k;
    assert(lhs.den == rhs.den) by (nonlinear_arith)
        requires
            lhs.den == e.den * b.den,
            e.den == k,
            rhs.den == k * b.den;
    assert(lhs =~= rhs);
}

/// Composing the scaled identity on the right scales every entry.
pub proof fn lemma_scale_id_right(b: RotorV, k: int)
    ensures
        rv_mul(b, rv_scale(rv_id(), k)) == rv_scale(b, k),
{
    let e = rv_scale(rv_id(), k);
    let lhs = rv_mul(b, e);
    let rhs = rv_scale(b, k);
    assert(lhs.s == rhs.s) by (nonlinear_arith)
        requires
            lhs.s == b.s * e.s - b.xw * e.xw - b.xy * e.xy + b.xyzw * e.xyzw - b.xz * e.xz - b.yw * e.yw - b.yz * e.yz - b.zw * e.zw,
            rhs.s == k * b.s,
            e.s == k,
            e.xy == 0,
            e.xz == 0,
            e.xw == 0,
            e.yz == 0,
            e.yw == 0,
            e.zw == 0,
            e.xyzw == 0,
            e.den == k;
    assert(lhs.xy == rhs.xy) by (nonlinear_arith)
        requires
            lhs.xy == b.s * e.xy - b.xw * e.yw + b.xy * e.s - b.xyzw * e.zw - b.xz * e.yz + b.yw * e.xw + b.yz * e.xz - b.zw * e.xyzw,
            rhs.xy == k * b.xy,
            e.s == k,
            e.xy == 0,
            e.xz == 0,
            e.xw == 0,
            e.yz == 0,
            e.yw == 0,
            e.zw == 0,
            e.xyzw == 0,
            e.den == k;
    assert(lhs.xz == rhs.xz) by (nonlinear_arith)
        requires
            lhs.xz == b.s * e.xz - b.xw * e.zw + b.xy * e.yz + b.xyzw * e.yw + b.xz * e.s + b.yw * e.xyzw - b.yz * e.xy + b.zw * e.xw,
            rhs.xz == k * b.xz,
            e.s == k,
            e.xy == 0,
            e.xz == 0,
            e.xw == 0,
            e.yz == 0,
            e.yw == 0,
            e.zw == 0,
            e.xyzw == 0,
            e.den == k;
    assert(lhs.xw == rhs.xw) by (nonlinear_arith)
        requires
            lhs.xw == b.s * e.xw + b.xw * e.s + b.xy * e.yw - b.xyzw * e.yz + b.xz * e.zw - b.yw * e.xy - b.yz * e.xyzw - b.zw * e.xz,
            rhs.xw == k * b.xw,
            e.s == k,
            e.xy == 0,
            e.xz == 0,
            e.xw == 0,
            e.yz == 0,
            e.yw == 0,
            e.zw == 0,
            e.xyzw == 0,
            e.den == k;
    assert(lhs.yz == rhs.yz) by (nonlinear_arith)
        requires
            lhs.yz == b.s * e.yz - b.xw * e.xyzw - b.xy * e.xz - b.xyzw * e.xw + b.xz * e.xy - b.yw * e.zw + b.yz * e.s + b.zw * e.yw,
            rhs.yz == k * b.yz,
            e.s == k,
            e.xy == 0,
            e.xz == 0,
            e.xw == 0,
            e.yz == 0,
            e.yw == 0,
            e.zw == 0,
            e.xyzw == 0,
            e.den == k;
    assert(lhs.yw == rhs.yw) by (nonlinear_arith)
        requires
            lhs.yw == b.s * e.yw + b.xw * e.xy - b.xy * e.xw + b.xyzw * e.xz + b.xz * e.xyzw + b.yw * e.s + b.yz * e.zw - b.zw * e.yz,
            rhs.yw == k * b.yw,
            e.s == k,
            e.xy == 0,
            e.xz == 0,
            e.xw == 0,
            e.yz == 0,
            e.yw == 0,
            e.zw == 0,
            e.xyzw == 0,
            e.den == k;
    assert(lhs.zw == rhs.zw) by (nonlinear_arith)
        requires
            lhs.zw == b.s * e.zw + b.xw * e.xz - b.xy * e.xyzw - b.xyzw * e.xy - b.xz * e.xw + b.yw * e.yz - b.yz * e.yw + b.zw * e.s,
            rhs.zw == k * b.zw,
            e.s == k,
            e.xy == 0,
            e.xz == 0,
            e.xw == 0,
            e.yz == 0,
            e.yw == 0,
            e.zw == 0,
            e.xyzw == 0,
            e.den == k;
    assert(lhs.xyzw == rhs.xyzw) by (nonlinear_arith)
        requires
            lhs.xyzw == b.s * e.xyzw + b.xw * e.yz + b.xy * e.zw + b.xyzw * e.s - b.xz * e.yw - b.yw * e.xz + b.yz * e.xw + b.zw * e.xy,
            rhs.xyzw == k * b.xyzw,
            e.s == k,
            e.xy == 0,
            e.xz == 0,
            e.xw == 0,
            e.yz == 0,
            e.yw == 0,
            e.zw == 0,
            e.xyzw == 0,
            e.den == k;
    assert(lhs.den == rhs.den) by (nonlinear_arith)
        requires
            lhs.den == b.den * e.den,
            e.den == k,
            rhs.den == k * b.den;
    assert(lhs =~= rhs);
}

/// The product of two bounded magnitudes is bounded, and positive factors
/// give a positive product.
pub proof fn lemma_prod_bound(x: int, y: int, mx: int, my: int)
    by (nonlinear_arith)
    requires
        -mx <= x <= mx,
        -my <= y <= my,
    ensures
        -(mx * my) <= x * y <= mx * my,
        (x > 0 && y > 0) ==> x * y > 0,
{
}

/// Entry bounds are preserved through composition: each entry of the
/// product is a sum of eight two-entry products.
pub proof fn lemma_mul_bounded(a: RotorV, b: RotorV, ma: int, mb: int)
    requires
        rv_bounded(a, ma),
        rv_bounded(b, mb),
    ensures
        rv_bounded(rv_mul(a, b), 8 * (ma * mb)),
{
    lemma_prod_bound(a.s, b.s, ma, mb);
    lemma_prod_bound(a.s, b.xy, ma, mb);
    lemma_prod_bound(a.s, b.xz, ma, mb);
    lemma_prod_bound(a.s, b.xw, ma, mb);
    lemma_prod_bound(a.s, b.yz, ma, mb);
    lemma_prod_bound(a.s, b.yw, ma, mb);
    lemma_prod_bound(a.s, b.zw, ma, mb);
    lemma_prod_bound(a.s, b.xyzw, ma, mb);
    lemma_prod_bound(a.xy, b.s, ma, mb);
    lemma_prod_bound(a.xy, b.xy, ma, mb);
    lemma_prod_bound(a.xy, b.xz, ma, mb);
    lemma_prod_bound(a.xy, b.xw, ma, mb);
    lemma_prod_bound(a.xy, b.yz, ma, mb);
    lemma_prod_bound(a.xy, b.yw, ma, mb);
    lemma_prod_bound(a.xy, b.zw, ma, mb);
    lemma_prod_bound(a.xy, b.xyzw, ma, mb);
    lemma_prod_bound(a.xz, b.s, ma, mb);
    lemma_prod_bound(a.xz, b.xy, ma, mb);
    lemma_prod_bound(a.xz, b.xz, ma, mb);
    lemma_prod_bound(a.xz, b.xw, ma, mb);
    lemma_prod_bound(a.xz, b.yz, ma, mb);
    lemma_prod_bound(a.xz, b.yw, ma, mb);
    lemma_prod_bound(a.xz, b.zw, ma, mb);
    lemma_prod_bound(a.xz, b.xyzw, ma, mb);
    lemma_prod_bound(a.xw, b.s, ma, mb);
    lemma_prod_bound(a.xw, b.xy, ma, mb);
    lemma_prod_bound(a.xw, b.xz, ma, mb);
    lemma_prod_bound(a.xw, b.xw, ma, mb);
    lemma_prod_bound(a.xw, b.yz, ma, mb);
    lemma_prod_bound(a.xw, b.yw, ma, mb);
    lemma_prod_bound(a.xw, b.zw, ma, mb);
    lemma_prod_bound(a.xw, b.xyzw, ma, mb);
    lemma_prod_bound(a.yz, b.s, ma, mb);
    lemma_prod_bound(a.yz, b.xy, ma, mb);
    lemma_prod_bound(a.yz, b.xz, ma, mb);
    lemma_prod_bound(a.yz, b.xw, ma, mb);
    lemma_prod_bound(a.yz, b.yz, ma, mb);
    lemma_prod_bound(a.yz, b.yw, ma, mb);
    lemma_prod_bound(a.yz, b.zw, ma, mb);
    lemma_prod_bound(a.yz, b.xyzw, ma, mb);
    lemma_prod_bound(a.yw, b.s, ma, mb);
    lemma_prod_bound(a.yw, b.xy, ma, mb);
    lemma_prod_bound(a.yw, b.xz, ma, mb);
    lemma_prod_bound(a.yw, b.xw, ma, mb);
    lemma_prod_bound(a.yw, b.yz, ma, mb);
    lemma_prod_bound(a.yw, b.yw, ma, mb);
    lemma_prod_bound(a.yw, b.zw, ma, mb);
    lemma_prod_bound(a.yw, b.xyzw, ma, mb);
    lemma_prod_bound(a.zw, b.s, ma, mb);
    lemma_prod_bound(a.zw, b.xy, ma, mb);
    lemma_prod_bound(a.zw, b.xz, ma, mb);
    lemma_prod_bound(a.zw, b.xw, ma, mb);
    lemma_prod_bound(a.zw, b.yz, ma, mb);
    lemma_prod_bound(a.zw, b.yw, ma, mb);
    lemma_prod_bound(a.zw, b.zw, ma, mb);
    lemma_prod_bound(a.zw, b.xyzw, ma, mb);
    lemma_prod_bound(a.xyzw, b.s, ma, mb);
    lemma_prod_bound(a.xyzw, b.xy, ma, mb);
    lemma_prod_bound(a.xyzw, b.xz, ma, mb);
    lemma_prod_bound(a.xyzw, b.xw, ma, mb);
    lemma_prod_bound(a.xyzw, b.yz, ma, mb);
    lemma_prod_bound(a.xyzw, b.yw, ma, mb);
    lemma_prod_bound(a.xyzw, b.zw, ma, mb);
    lemma_prod_bound(a.xyzw, b.xyzw, ma, mb);
    lemma_prod_bound(a.den, b.den, ma, mb);
}

} // verus!
