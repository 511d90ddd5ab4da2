//! Motors ("transforms"): rotation combined with translation in 4D.
//!
//! A motor extends a [`Rotor`] with four translation bivector parts
//! `tx, ty, tz, tw` and four mixed quadvector parts `txyz, txyw, txzw, tyzw`:
//! the even-grade subalgebra of the projective geometric algebra over one
//! degenerate and four Euclidean basis directions.  It acts on points by the
//! sandwich product `reverse(t) * p * t`; a pure translation by an offset
//! `v` carries `v / 2` in its translation parts.  As with rotors, all
//! coefficients are exact rationals over one shared positive denominator.
//!
//! The point sandwich [`Transform::transform_point`] keeps the
//! unit-magnitude shortcut of the original algebra kernel: the correction
//! term `p . (1 - reverse(t) * t)` (the `t.den * t.den * p` summand of
//! [`tv_point`]) makes the result exact for unit motors; for a motor far
//! from unit magnitude the result is a faithful reproduction of that
//! shortcut, not of the full projective formula.

use vstd::prelude::*;

use crate::rotor::{
    ENTRY_LIMIT, SANDWICH_LIMIT, HalfAngle, Plane, Rotor, RotorV, lemma_prod_bound, mul3, mul_ll,
    rv_dir, rv_rotate, rv_wf,
};
use crate::vec::{Vec4, Vec4V, v4_eq, v4_origin, v4_wf};

verus! {

/// Mathematical model of a [`Transform`]: sixteen integer numerators over
/// one positive denominator.
#[verifier::ext_equal]
pub ghost struct TransformV {
    pub s: int,
    pub tx: int,
    pub ty: int,
    pub tz: int,
    pub tw: int,
    pub xy: int,
    pub xz: int,
    pub xw: int,
    pub yz: int,
    pub yw: int,
    pub zw: int,
    pub txyz: int,
    pub txyw: int,
    pub txzw: int,
    pub tyzw: int,
    pub xyzw: int,
    pub den: int,
}

pub open spec fn tv_wf(a: TransformV) -> bool {
    a.den > 0
}

/// All numerators and the denominator of `a` are bounded by `m`.
pub open spec fn tv_bounded(a: TransformV, m: int) -> bool {
    &&& -m <= a.s <= m
    &&& -m <= a.tx <= m
    &&& -m <= a.ty <= m
    &&& -m <= a.tz <= m
    &&& -m <= a.tw <= m
    &&& -m <= a.xy <= m
    &&& -m <= a.xz <= m
    &&& -m <= a.xw <= m
    &&& -m <= a.yz <= m
    &&& -m <= a.yw <= m
    &&& -m <= a.zw <= m
    &&& -m <= a.txyz <= m
    &&& -m <= a.txyw <= m
    &&& -m <= a.txzw <= m
    &&& -m <= a.tyzw <= m
    &&& -m <= a.xyzw <= m
    &&& 0 < a.den <= m
}

/// The identity motor.
pub open spec fn tv_id() -> TransformV {
    TransformV {
        s: 1,
        tx: 0,
        ty: 0,
        tz: 0,
        tw: 0,
        xy: 0,
        xz: 0,
        xw: 0,
        yz: 0,
        yw: 0,
        zw: 0,
        txyz: 0,
        txyw: 0,
        txzw: 0,
        tyzw: 0,
        xyzw: 0,
        den: 1,
    }
}

/// Grade reversal: all ten bivector parts change sign, the scalar and the
/// five quadvector parts are kept.
pub open spec fn tv_rev(a: TransformV) -> TransformV {
    TransformV {
        s: a.s,
        tx: -a.tx,
        ty: -a.ty,
        tz: -a.tz,
        tw: -a.tw,
        xy: -a.xy,
        xz: -a.xz,
        xw: -a.xw,
        yz: -a.yz,
        yw: -a.yw,
        zw: -a.zw,
        txyz: a.txyz,
        txyw: a.txyw,
        txzw: a.txzw,
        tyzw: a.tyzw,
        xyzw: a.xyzw,
        den: a.den,
    }
}

/// The geometric product `a * b` restricted to the motor subalgebra.
/// As an operation on points it applies `a` first and `b` second.
pub open spec fn tv_mul(a: TransformV, b: TransformV) -> TransformV {
    TransformV {
        s: a.s * b.s - a.xw * b.xw - a.xy * b.xy + a.xyzw * b.xyzw - a.xz * b.xz - a.yw * b.yw - a.yz * b.yz - a.zw * b.zw,
        tx: a.s * b.tx - a.tw * b.xw + a.tx * b.s - a.txyw * b.yw - a.txyz * b.yz - a.txzw * b.zw - a.ty * b.xy + a.tyzw * b.xyzw - a.tz * b.xz + a.xw * b.tw + a.xy * b.ty - a.xyzw * b.tyzw + a.xz * b.tz - a.yw * b.txyw - a.yz * b.txyz - a.zw * b.txzw,
        ty: a.s * b.ty - a.tw * b.yw + a.tx * b.xy + a.txyw * b.xw + a.txyz * b.xz - a.txzw * b.xyzw + a.ty * b.s - a.tyzw * b.zw - a.tz * b.yz + a.xw * b.txyw - a.xy * b.tx + a.xyzw * b.txzw + a.xz * b.txyz + a.yw * b.tw + a.yz * b.tz - a.zw * b.tyzw,
        tz: a.s * b.tz - a.tw * b.zw + a.tx * b.xz + a.txyw * b.xyzw - a.txyz * b.xy + a.txzw * b.xw + a.ty * b.yz + a.tyzw * b.yw + a.tz * b.s + a.xw * b.txzw - a.xy * b.txyz - a.xyzw * b.txyw - a.xz * b.tx + a.yw * b.tyzw - a.yz * b.ty + a.zw * b.tw,
        tw: a.s * b.tw + a.tw * b.s + a.tx * b.xw - a.txyw * b.xy - a.txyz * b.xyzw - a.txzw * b.xz + a.ty * b.yw - a.tyzw * b.yz + a.tz * b.zw - a.xw * b.tx - a.xy * b.txyw + a.xyzw * b.txyz - a.xz * b.txzw - a.yw * b.ty - a.yz * b.tyzw - a.zw * b.tz,
        xy: a.s * b.xy - a.xw * b.yw + a.xy * b.s - a.xyzw * b.zw - a.xz * b.yz + a.yw * b.xw + a.yz * b.xz - a.zw * b.xyzw,
        xz: a.s * b.xz - a.xw * b.zw + a.xy * b.yz + a.xyzw * b.yw + a.xz * b.s + a.yw * b.xyzw - a.yz * b.xy + a.zw * b.xw,
        xw: a.s * b.xw + a.xw * b.s + a.xy * b.yw - a.xyzw * b.yz + a.xz * b.zw - a.yw * b.xy - a.yz * b.xyzw - a.zw * b.xz,
        yz: a.s * b.yz - a.xw * b.xyzw - a.xy * b.xz - a.xyzw * b.xw + a.xz * b.xy - a.yw * b.zw + a.yz * b.s + a.zw * b.yw,
        yw: a.s * b.yw + a.xw * b.xy - a.xy * b.xw + a.xyzw * b.xz + a.xz * b.xyzw + a.yw * b.s + a.yz * b.zw - a.zw * b.yz,
        zw: a.s * b.zw + a.xw * b.xz - a.xy * b.xyzw - a.xyzw * b.xy - a.xz * b.xw + a.yw * b.yz - a.yz * b.yw + a.zw * b.s,
        txyz: a.s * b.txyz - a.tw * b.xyzw + a.tx * b.yz - a.txyw * b.zw + a.txyz * b.s + a.txzw * b.yw - a.ty * b.xz - a.tyzw * b.xw + a.tz * b.xy + a.xw * b.tyzw + a.xy * b.tz + a.xyzw * b.tw - a.xz * b.ty - a.yw * b.txzw + a.yz * b.tx + a.zw * b.txyw,
        txyw: a.s * b.txyw + a.tw * b.xy + a.tx * b.yw + a.txyw * b.s + a.txyz * b.zw - a.txzw * b.yz - a.ty * b.xw + a.tyzw * b.xz + a.tz * b.xyzw - a.xw * b.ty + a.xy * b.tw - a.xyzw * b.tz - a.xz * b.tyzw + a.yw * b.tx + a.yz * b.txzw - a.zw * b.txyz,
        txzw: a.s * b.txzw + a.tw * b.xz + a.tx * b.zw + a.txyw * b.yz - a.txyz * b.yw + a.txzw * b.s - a.ty * b.xyzw - a.tyzw * b.xy - a.tz * b.xw - a.xw * b.tz + a.xy * b.tyzw + a.xyzw * b.ty + a.xz * b.tw + a.yw * b.txyz - a.yz * b.txyw + a.zw * b.tx,
        tyzw: a.s * b.tyzw + a.tw * b.yz + a.tx * b.xyzw - a.txyw * b.xz + a.txyz * b.xw + a.txzw * b.xy + a.ty * b.zw + a.tyzw * b.s - a.tz * b.yw - a.xw * b.txyz - a.xy * b.txzw - a.xyzw * b.tx + a.xz * b.txyw - a.yw * b.tz + a.yz * b.tw + a.zw * b.ty,
        xyzw: a.s * b.xyzw + a.xw * b.yz + a.xy * b.zw + a.xyzw * b.s - a.xz * b.yw - a.yw * b.xz + a.yz * b.xw + a.zw * b.xy,
        den: a.den * b.den,
    }
}

/// The pure translation by the offset `v`: scalar one and half the offset
/// in the translation parts, realized exactly by doubling the denominator.
pub open spec fn tv_translation(v: Vec4V) -> TransformV {
    TransformV {
        s: 2 * v.den,
        tx: v.x,
        ty: v.y,
        tz: v.z,
        tw: v.w,
        xy: 0,
        xz: 0,
        xw: 0,
        yz: 0,
        yw: 0,
        zw: 0,
        txyz: 0,
        txyw: 0,
        txzw: 0,
        tyzw: 0,
        xyzw: 0,
        den: 2 * v.den,
    }
}

/// A rotor lifted into motor space: translation-grade parts are zero.
pub open spec fn tv_from_rotor(r: RotorV) -> TransformV {
    TransformV {
        s: r.s,
        tx: 0,
        ty: 0,
        tz: 0,
        tw: 0,
        xy: r.xy,
        xz: r.xz,
        xw: r.xw,
        yz: r.yz,
        yw: r.yw,
        zw: r.zw,
        txyz: 0,
        txyw: 0,
        txzw: 0,
        tyzw: 0,
        xyzw: r.xyzw,
        den: r.den,
    }
}

/// The embedded rotor of a motor: translation-grade parts dropped.
pub open spec fn tv_rotor_part(a: TransformV) -> RotorV {
    RotorV {
        s: a.s,
        xy: a.xy,
        xz: a.xz,
        xw: a.xw,
        yz: a.yz,
        yw: a.yw,
        zw: a.zw,
        xyzw: a.xyzw,
        den: a.den,
    }
}

/// The x numerator of the point sandwich.
pub open spec fn tv_point_x(t: TransformV, p: Vec4V) -> int {
    2 * (t.s * t.tx * p.den) - 2 * (t.tw * t.xw * p.den) + 2 * (t.txyw * t.yw * p.den) + 2 * (t.txyz * t.yz * p.den) + 2 * (t.txzw * t.zw * p.den) - 2 * (t.ty * t.xy * p.den) - 2 * (t.tyzw * t.xyzw * p.den) - 2 * (t.tz * t.xz * p.den) - 2 * (p.w * t.s * t.xw) + 2 * (p.w * t.xy * t.yw) - 2 * (p.w * t.xyzw * t.yz) + 2 * (p.w * t.xz * t.zw) - 2 * (p.x * t.xw * t.xw) - 2 * (p.x * t.xy * t.xy) - 2 * (p.x * t.xyzw * t.xyzw) - 2 * (p.x * t.xz * t.xz) - 2 * (p.y * t.s * t.xy) - 2 * (p.y * t.xw * t.yw) - 2 * (p.y * t.xyzw * t.zw) - 2 * (p.y * t.xz * t.yz) - 2 * (p.z * t.s * t.xz) - 2 * (p.z * t.xw * t.zw) + 2 * (p.z * t.xy * t.yz) + 2 * (p.z * t.xyzw * t.yw) + t.den * t.den * p.x
}

/// The y numerator of the point sandwich.
pub open spec fn tv_point_y(t: TransformV, p: Vec4V) -> int {
    2 * (t.s * t.ty * p.den) - 2 * (t.tw * t.yw * p.den) + 2 * (t.tx * t.xy * p.den) - 2 * (t.txyw * t.xw * p.den) - 2 * (t.txyz * t.xz * p.den) + 2 * (t.txzw * t.xyzw * p.den) + 2 * (t.tyzw * t.zw * p.den) - 2 * (t.tz * t.yz * p.den) - 2 * (p.w * t.s * t.yw) - 2 * (p.w * t.xw * t.xy) + 2 * (p.w * t.xyzw * t.xz) + 2 * (p.w * t.yz * t.zw) + 2 * (p.x * t.s * t.xy) - 2 * (p.x * t.xw * t.yw) + 2 * (p.x * t.xyzw * t.zw) - 2 * (p.x * t.xz * t.yz) - 2 * (p.y * t.xy * t.xy) - 2 * (p.y * t.xyzw * t.xyzw) - 2 * (p.y * t.yw * t.yw) - 2 * (p.y * t.yz * t.yz) - 2 * (p.z * t.s * t.yz) - 2 * (p.z * t.xw * t.xyzw) - 2 * (p.z * t.xy * t.xz) - 2 * (p.z * t.yw * t.zw) + t.den * t.den * p.y
}

/// The z numerator of the point sandwich.
pub open spec fn tv_point_z(t: TransformV, p: Vec4V) -> int {
    2 * (t.s * t.tz * p.den) - 2 * (t.tw * t.zw * p.den) + 2 * (t.tx * t.xz * p.den) - 2 * (t.txyw * t.xyzw * p.den) + 2 * (t.txyz * t.xy * p.den) - 2 * (t.txzw * t.xw * p.den) + 2 * (t.ty * t.yz * p.den) - 2 * (t.tyzw * t.yw * p.den) - 2 * (p.w * t.s * t.zw) - 2 * (p.w * t.xw * t.xz) - 2 * (p.w * t.xy * t.xyzw) - 2 * (p.w * t.yw * t.yz) + 2 * (p.x * t.s * t.xz) - 2 * (p.x * t.xw * t.zw) + 2 * (p.x * t.xy * t.yz) - 2 * (p.x * t.xyzw * t.yw) + 2 * (p.y * t.s * t.yz) + 2 * (p.y * t.xw * t.xyzw) - 2 * (p.y * t.xy * t.xz) - 2 * (p.y * t.yw * t.zw) - 2 * (p.z * t.xyzw * t.xyzw) - 2 * (p.z * t.xz * t.xz) - 2 * (p.z * t.yz * t.yz) - 2 * (p.z * t.zw * t.zw) + t.den * t.den * p.z
}

/// The w numerator of the point sandwich.
pub open spec fn tv_point_w(t: TransformV, p: Vec4V) -> int {
    2 * (t.s * t.tw * p.den) + 2 * (t.tx * t.xw * p.den) + 2 * (t.txyw * t.xy * p.den) + 2 * (t.txyz * t.xyzw * p.den) + 2 * (t.txzw * t.xz * p.den) + 2 * (t.ty * t.yw * p.den) + 2 * (t.tyzw * t.yz * p.den) + 2 * (t.tz * t.zw * p.den) - 2 * (p.w * t.xw * t.xw) - 2 * (p.w * t.xyzw * t.xyzw) - 2 * (p.w * t.yw * t.yw) - 2 * (p.w * t.zw * t.zw) + 2 * (p.x * t.s * t.xw) + 2 * (p.x * t.xy * t.yw) + 2 * (p.x * t.xyzw * t.yz) + 2 * (p.x * t.xz * t.zw) + 2 * (p.y * t.s * t.yw) - 2 * (p.y * t.xw * t.xy) - 2 * (p.y * t.xyzw * t.xz) + 2 * (p.y * t.yz * t.zw) + 2 * (p.z * t.s * t.zw) - 2 * (p.z * t.xw * t.xz) + 2 * (p.z * t.xy * t.xyzw) - 2 * (p.z * t.yw * t.yz) + t.den * t.den * p.w
}

/// The image of the point `p` under the motor `t`: the sandwich product
/// `reverse(t) * p * t` with the unit-magnitude shortcut (the
/// `t.den * t.den * p` summand stands for the correction
/// `p . (1 - reverse(t) * t)`).
pub open spec fn tv_point(t: TransformV, p: Vec4V) -> Vec4V {
    Vec4V {
        x: tv_point_x(t, p),
        y: tv_point_y(t, p),
        z: tv_point_z(t, p),
        w: tv_point_w(t, p),
        den: t.den * t.den * p.den,
    }
}

/// Computes the x numerator of the point sandwich.
#[verifier::rlimit(100)]
fn point_coord_x(t: &Transform, p: &Vec4) -> (r: i128)
    requires
        tv_bounded(t@, SANDWICH_LIMIT as int),
        -SANDWICH_LIMIT <= p.x <= SANDWICH_LIMIT,
        -SANDWICH_LIMIT <= p.y <= SANDWICH_LIMIT,
        -SANDWICH_LIMIT <= p.z <= SANDWICH_LIMIT,
        -SANDWICH_LIMIT <= p.w <= SANDWICH_LIMIT,
        0 < p.den <= SANDWICH_LIMIT,
    ensures
        r == tv_point_x(t@, p@),
{
    2 * mul3(t.s, t.tx, p.den) - 2 * mul3(t.tw, t.xw, p.den) + 2 * mul3(t.txyw, t.yw, p.den) + 2 * mul3(t.txyz, t.yz, p.den) + 2 * mul3(t.txzw, t.zw, p.den) - 2 * mul3(t.ty, t.xy, p.den) - 2 * mul3(t.tyzw, t.xyzw, p.den) - 2 * mul3(t.tz, t.xz, p.den) - 2 * mul3(p.w, t.s, t.xw) + 2 * mul3(p.w, t.xy, t.yw) - 2 * mul3(p.w, t.xyzw, t.yz) + 2 * mul3(p.w, t.xz, t.zw) - 2 * mul3(p.x, t.xw, t.xw) - 2 * mul3(p.x, t.xy, t.xy) - 2 * mul3(p.x, t.xyzw, t.xyzw) - 2 * mul3(p.x, t.xz, t.xz) - 2 * mul3(p.y, t.s, t.xy) - 2 * mul3(p.y, t.xw, t.yw) - 2 * mul3(p.y, t.xyzw, t.zw) - 2 * mul3(p.y, t.xz, t.yz) - 2 * mul3(p.z, t.s, t.xz) - 2 * mul3(p.z, t.xw, t.zw) + 2 * mul3(p.z, t.xy, t.yz) + 2 * mul3(p.z, t.xyzw, t.yw) + mul3(t.den, t.den, p.x)
}

/// Computes the y numerator of the point sandwich.
#[verifier::rlimit(100)]
fn point_coord_y(t: &Transform, p: &Vec4) -> (r: i128)
    requires
        tv_bounded(t@, SANDWICH_LIMIT as int),
        -SANDWICH_LIMIT <= p.x <= SANDWICH_LIMIT,
        -SANDWICH_LIMIT <= p.y <= SANDWICH_LIMIT,
        -SANDWICH_LIMIT <= p.z <= SANDWICH_LIMIT,
        -SANDWICH_LIMIT <= p.w <= SANDWICH_LIMIT,
        0 < p.den <= SANDWICH_LIMIT,
    ensures
        r == tv_point_y(t@, p@),
{
    2 * mul3(t.s, t.ty, p.den) - 2 * mul3(t.tw, t.yw, p.den) + 2 * mul3(t.tx, t.xy, p.den) - 2 * mul3(t.txyw, t.xw, p.den) - 2 * mul3(t.txyz, t.xz, p.den) + 2 * mul3(t.txzw, t.xyzw, p.den) + 2 * mul3(t.tyzw, t.zw, p.den) - 2 * mul3(t.tz, t.yz, p.den) - 2 * mul3(p.w, t.s, t.yw) - 2 * mul3(p.w, t.xw, t.xy) + 2 * mul3(p.w, t.xyzw, t.xz) + 2 * mul3(p.w, t.yz, t.zw) + 2 * mul3(p.x, t.s, t.xy) - 2 * mul3(p.x, t.xw, t.yw) + 2 * mul3(p.x, t.xyzw, t.zw) - 2 * mul3(p.x, t.xz, t.yz) - 2 * mul3(p.y, t.xy, t.xy) - 2 * mul3(p.y, t.xyzw, t.xyzw) - 2 * mul3(p.y, t.yw, t.yw) - 2 * mul3(p.y, t.yz, t.yz) - 2 * mul3(p.z, t.s, t.yz) - 2 * mul3(p.z, t.xw, t.xyzw) - 2 * mul3(p.z, t.xy, t.xz) - 2 * mul3(p.z, t.yw, t.zw) + mul3(t.den, t.den, p.y)
}

/// Computes the z numerator of the point sandwich.
#[verifier::rlimit(100)]
fn point_coord_z(t: &Transform, p: &Vec4) -> (r: i128)
    requires
        tv_bounded(t@, SANDWICH_LIMIT as int),
        -SANDWICH_LIMIT <= p.x <= SANDWICH_LIMIT,
        -SANDWICH_LIMIT <= p.y <= SANDWICH_LIMIT,
        -SANDWICH_LIMIT <= p.z <= SANDWICH_LIMIT,
        -SANDWICH_LIMIT <= p.w <= SANDWICH_LIMIT,
        0 < p.den <= SANDWICH_LIMIT,
    ensures
        r == tv_point_z(t@, p@),
{
    2 * mul3(t.s, t.tz, p.den) - 2 * mul3(t.tw, t.zw, p.den) + 2 * mul3(t.tx, t.xz, p.den) - 2 * mul3(t.txyw, t.xyzw, p.den) + 2 * mul3(t.txyz, t.xy, p.den) - 2 * mul3(t.txzw, t.xw, p.den) + 2 * mul3(t.ty, t.yz, p.den) - 2 * mul3(t.tyzw, t.yw, p.den) - 2 * mul3(p.w, t.s, t.zw) - 2 * mul3(p.w, t.xw, t.xz) - 2 * mul3(p.w, t.xy, t.xyzw) - 2 * mul3(p.w, t.yw, t.yz) + 2 * mul3(p.x, t.s, t.xz) - 2 * mul3(p.x, t.xw, t.zw) + 2 * mul3(p.x, t.xy, t.yz) - 2 * mul3(p.x, t.xyzw, t.yw) + 2 * mul3(p.y, t.s, t.yz) + 2 * mul3(p.y, t.xw, t.xyzw) - 2 * mul3(p.y, t.xy, t.xz) - 2 * mul3(p.y, t.yw, t.zw) - 2 * mul3(p.z, t.xyzw, t.xyzw) - 2 * mul3(p.z, t.xz, t.xz) - 2 * mul3(p.z, t.yz, t.yz) - 2 * mul3(p.z, t.zw, t.zw) + mul3(t.den, t.den, p.z)
}

/// Computes the w numerator of the point sandwich.
#[verifier::rlimit(100)]
fn point_coord_w(t: &Transform, p: &Vec4) -> (r: i128)
    requires
        tv_bounded(t@, SANDWICH_LIMIT as int),
        -SANDWICH_LIMIT <= p.x <= SANDWICH_LIMIT,
        -SANDWICH_LIMIT <= p.y <= SANDWICH_LIMIT,
        -SANDWICH_LIMIT <= p.z <= SANDWICH_LIMIT,
        -SANDWICH_LIMIT <= p.w <= SANDWICH_LIMIT,
        0 < p.den <= SANDWICH_LIMIT,
    ensures
        r == tv_point_w(t@, p@),
{
    2 * mul3(t.s, t.tw, p.den) + 2 * mul3(t.tx, t.xw, p.den) + 2 * mul3(t.txyw, t.xy, p.den) + 2 * mul3(t.txyz, t.xyzw, p.den) + 2 * mul3(t.txzw, t.xz, p.den) + 2 * mul3(t.ty, t.yw, p.den) + 2 * mul3(t.tyzw, t.yz, p.den) + 2 * mul3(t.tz, t.zw, p.den) - 2 * mul3(p.w, t.xw, t.xw) - 2 * mul3(p.w, t.xyzw, t.xyzw) - 2 * mul3(p.w, t.yw, t.yw) - 2 * mul3(p.w, t.zw, t.zw) + 2 * mul3(p.x, t.s, t.xw) + 2 * mul3(p.x, t.xy, t.yw) + 2 * mul3(p.x, t.xyzw, t.yz) + 2 * mul3(p.x, t.xz, t.zw) + 2 * mul3(p.y, t.s, t.yw) - 2 * mul3(p.y, t.xw, t.xy) - 2 * mul3(p.y, t.xyzw, t.xz) + 2 * mul3(p.y, t.yz, t.zw) + 2 * mul3(p.z, t.s, t.zw) - 2 * mul3(p.z, t.xw, t.xz) + 2 * mul3(p.z, t.xy, t.xyzw) - 2 * mul3(p.z, t.yw, t.yz) + mul3(t.den, t.den, p.w)
}

/// A rigid motion of 4-dimensional space: rotation combined with
/// translation, as exact rational coefficients of the even projective
/// subalgebra over one shared positive denominator.
#[derive(Clone, Copy, Debug, PartialEq, Eq, Structural)]
pub struct Transform {
    pub s: i128,
    pub tx: i128,
    pub ty: i128,
    pub tz: i128,
    pub tw: i128,
    pub xy: i128,
    pub xz: i128,
    pub xw: i128,
    pub yz: i128,
    pub yw: i128,
    pub zw: i128,
    pub txyz: i128,
    pub txyw: i128,
    pub txzw: i128,
    pub tyzw: i128,
    pub xyzw: i128,
    pub den: i128,
}

impl View for Transform {
    type V = TransformV;

    open spec fn view(&self) -> TransformV {
        TransformV {
            s: self.s as int,
            tx: self.tx as int,
            ty: self.ty as int,
            tz: self.tz as int,
            tw: self.tw as int,
            xy: self.xy as int,
            xz: self.xz as int,
            xw: self.xw as int,
            yz: self.yz as int,
            yw: self.yw as int,
            zw: self.zw as int,
            txyz: self.txyz as int,
            txyw: self.txyw as int,
            txzw: self.txzw as int,
            tyzw: self.tyzw as int,
            xyzw: self.xyzw as int,
            den: self.den as int,
        }
    }
}

impl Transform {
    /// The identity motion.
    pub fn identity() -> (r: Transform)
        ensures
            r@ == tv_id(),
    {
        Transform {
            s: 1,
            tx: 0,
            ty: 0,
            tz: 0,
            tw: 0,
            xy: 0,
            xz: 0,
            xw: 0,
            yz: 0,
            yw: 0,
            zw: 0,
            txyz: 0,
            txyw: 0,
            txzw: 0,
            tyzw: 0,
            xyzw: 0,
            den: 1,
        }
    }

    /// The pure translation by `offset`.
    pub fn translation(offset: Vec4) -> (r: Transform)
        requires
            0 < offset.den <= 0x1000_0000_0000_0000,
        ensures
            r@ == tv_translation(offset@),
            r.den > 0,
    {
        Transform {
            s: 2 * offset.den,
            tx: offset.x,
            ty: offset.y,
            tz: offset.z,
            tw: offset.w,
            xy: 0,
            xz: 0,
            xw: 0,
            yz: 0,
            yw: 0,
            zw: 0,
            txyz: 0,
            txyw: 0,
            txzw: 0,
            tyzw: 0,
            xyzw: 0,
            den: 2 * offset.den,
        }
    }

    /// A rotation in the xy plane, lifted to a motor.
    pub fn rotate_xy(half: HalfAngle) -> (r: Transform)
        requires
            half.wf(),
        ensures
            r@ == tv_from_rotor(rv_rotate(Plane::Xy, half.cos as int, half.sin as int, half.den as int)),
    {
        Transform::from_rotor(Rotor::rotate_xy(half))
    }

    /// A rotation in the xz plane, lifted to a motor.
    pub fn rotate_xz(half: HalfAngle) -> (r: Transform)
        requires
            half.wf(),
        ensures
            r@ == tv_from_rotor(rv_rotate(Plane::Xz, half.cos as int, half.sin as int, half.den as int)),
    {
        Transform::from_rotor(Rotor::rotate_xz(half))
    }

    /// A rotation in the xw plane, lifted to a motor.
    pub fn rotate_xw(half: HalfAngle) -> (r: Transform)
        requires
            half.wf(),
        ensures
            r@ == tv_from_rotor(rv_rotate(Plane::Xw, half.cos as int, half.sin as int, half.den as int)),
    {
        Transform::from_rotor(Rotor::rotate_xw(half))
    }

    /// A rotation in the yz plane, lifted to a motor.
    pub fn rotate_yz(half: HalfAngle) -> (r: Transform)
        requires
            half.wf(),
        ensures
            r@ == tv_from_rotor(rv_rotate(Plane::Yz, half.cos as int, half.sin as int, half.den as int)),
    {
        Transform::from_rotor(Rotor::rotate_yz(half))
    }

    /// A rotation in the yw plane, lifted to a motor.
    pub fn rotate_yw(half: HalfAngle) -> (r: Transform)
        requires
            half.wf(),
        ensures
            r@ == tv_from_rotor(rv_rotate(Plane::Yw, half.cos as int, half.sin as int, half.den as int)),
    {
        Transform::from_rotor(Rotor::rotate_yw(half))
    }

    /// A rotation in the zw plane, lifted to a motor.
    pub fn rotate_zw(half: HalfAngle) -> (r: Transform)
        requires
            half.wf(),
        ensures
            r@ == tv_from_rotor(rv_rotate(Plane::Zw, half.cos as int, half.sin as int, half.den as int)),
    {
        Transform::from_rotor(Rotor::rotate_zw(half))
    }

    /// The motion that applies `self` first and `other` second; the
    /// geometric product `self * other`.  Not commutative.
    pub fn and_then(self, other: Transform) -> (r: Transform)
        requires
            tv_bounded(self@, ENTRY_LIMIT as int),
            tv_bounded(other@, ENTRY_LIMIT as int),
        ensures
            r@ == tv_mul(self@, other@),
            r.den > 0,
    {
        Transform {
            s: mul_ll(self.s, other.s) - mul_ll(self.xw, other.xw) - mul_ll(self.xy, other.xy) + mul_ll(self.xyzw, other.xyzw) - mul_ll(self.xz, other.xz) - mul_ll(self.yw, other.yw) - mul_ll(self.yz, other.yz) - mul_ll(self.zw, other.zw),
            tx: mul_ll(self.s, other.tx) - mul_ll(self.tw, other.xw) + mul_ll(self.tx, other.s) - mul_ll(self.txyw, other.yw) - mul_ll(self.txyz, other.yz) - mul_ll(self.txzw, other.zw) - mul_ll(self.ty, other.xy) + mul_ll(self.tyzw, other.xyzw) - mul_ll(self.tz, other.xz) + mul_ll(self.xw, other.tw) + mul_ll(self.xy, other.ty) - mul_ll(self.xyzw, other.tyzw) + mul_ll(self.xz, other.tz) - mul_ll(self.yw, other.txyw) - mul_ll(self.yz, other.txyz) - mul_ll(self.zw, other.txzw),
            ty: mul_ll(self.s, other.ty) - mul_ll(self.tw, other.yw) + mul_ll(self.tx, other.xy) + mul_ll(self.txyw, other.xw) + mul_ll(self.txyz, other.xz) - mul_ll(self.txzw, other.xyzw) + mul_ll(self.ty, other.s) - mul_ll(self.tyzw, other.zw) - mul_ll(self.tz, other.yz) + mul_ll(self.xw, other.txyw) - mul_ll(self.xy, other.tx) + mul_ll(self.xyzw, other.txzw) + mul_ll(self.xz, other.txyz) + mul_ll(self.yw, other.tw) + mul_ll(self.yz, other.tz) - mul_ll(self.zw, other.tyzw),
            tz: mul_ll(self.s, other.tz) - mul_ll(self.tw, other.zw) + mul_ll(self.tx, other.xz) + mul_ll(self.txyw, other.xyzw) - mul_ll(self.txyz, other.xy) + mul_ll(self.txzw, other.xw) + mul_ll(self.ty, other.yz) + mul_ll(self.tyzw, other.yw) + mul_ll(self.tz, other.s) + mul_ll(self.xw, other.txzw) - mul_ll(self.xy, other.txyz) - mul_ll(self.xyzw, other.txyw) - mul_ll(self.xz, other.tx) + mul_ll(self.yw, other.tyzw) - mul_ll(self.yz, other.ty) + mul_ll(self.zw, other.tw),
            tw: mul_ll(self.s, other.tw) + mul_ll(self.tw, other.s) + mul_ll(self.tx, other.xw) - mul_ll(self.txyw, other.xy) - mul_ll(self.txyz, other.xyzw) - mul_ll(self.txzw, other.xz) + mul_ll(self.ty, other.yw) - mul_ll(self.tyzw, other.yz) + mul_ll(self.tz, other.zw) - mul_ll(self.xw, other.tx) - mul_ll(self.xy, other.txyw) + mul_ll(self.xyzw, other.txyz) - mul_ll(self.xz, other.txzw) - mul_ll(self.yw, other.ty) - mul_ll(self.yz, other.tyzw) - mul_ll(self.zw, other.tz),
            xy: mul_ll(self.s, other.xy) - mul_ll(self.xw, other.yw) + mul_ll(self.xy, other.s) - mul_ll(self.xyzw, other.zw) - mul_ll(self.xz, other.yz) + mul_ll(self.yw, other.xw) + mul_ll(self.yz, other.xz) - mul_ll(self.zw, other.xyzw),
            xz: mul_ll(self.s, other.xz) - mul_ll(self.xw, other.zw) + mul_ll(self.xy, other.yz) + mul_ll(self.xyzw, other.yw) + mul_ll(self.xz, other.s) + mul_ll(self.yw, other.xyzw) - mul_ll(self.yz, other.xy) + mul_ll(self.zw, other.xw),
            xw: mul_ll(self.s, other.xw) + mul_ll(self.xw, other.s) + mul_ll(self.xy, other.yw) - mul_ll(self.xyzw, other.yz) + mul_ll(self.xz, other.zw) - mul_ll(self.yw, other.xy) - mul_ll(self.yz, other.xyzw) - mul_ll(self.zw, other.xz),
            yz: mul_ll(self.s, other.yz) - mul_ll(self.xw, other.xyzw) - mul_ll(self.xy, other.xz) - mul_ll(self.xyzw, other.xw) + mul_ll(self.xz, other.xy) - mul_ll(self.yw, other.zw) + mul_ll(self.yz, other.s) + mul_ll(self.zw, other.yw),
            yw: mul_ll(self.s, other.yw) + mul_ll(self.xw, other.xy) - mul_ll(self.xy, other.xw) + mul_ll(self.xyzw, other.xz) + mul_ll(self.xz, other.xyzw) + mul_ll(self.yw, other.s) + mul_ll(self.yz, other.zw) - mul_ll(self.zw, other.yz),
            zw: mul_ll(self.s, other.zw) + mul_ll(self.xw, other.xz) - mul_ll(self.xy, other.xyzw) - mul_ll(self.xyzw, other.xy) - mul_ll(self.xz, other.xw) + mul_ll(self.yw, other.yz) - mul_ll(self.yz, other.yw) + mul_ll(self.zw, other.s),
            txyz: mul_ll(self.s, other.txyz) - mul_ll(self.tw, other.xyzw) + mul_ll(self.tx, other.yz) - mul_ll(self.txyw, other.zw) + mul_ll(self.txyz, other.s) + mul_ll(self.txzw, other.yw) - mul_ll(self.ty, other.xz) - mul_ll(self.tyzw, other.xw) + mul_ll(self.tz, other.xy) + mul_ll(self.xw, other.tyzw) + mul_ll(self.xy, other.tz) + mul_ll(self.xyzw, other.tw) - mul_ll(self.xz, other.ty) - mul_ll(self.yw, other.txzw) + mul_ll(self.yz, other.tx) + mul_ll(self.zw, other.txyw),
            txyw: mul_ll(self.s, other.txyw) + mul_ll(self.tw, other.xy) + mul_ll(self.tx, other.yw) + mul_ll(self.txyw, other.s) + mul_ll(self.txyz, other.zw) - mul_ll(self.txzw, other.yz) - mul_ll(self.ty, other.xw) + mul_ll(self.tyzw, other.xz) + mul_ll(self.tz, other.xyzw) - mul_ll(self.xw, other.ty) + mul_ll(self.xy, other.tw) - mul_ll(self.xyzw, other.tz) - mul_ll(self.xz, other.tyzw) + mul_ll(self.yw, other.tx) + mul_ll(self.yz, other.txzw) - mul_ll(self.zw, other.txyz),
            txzw: mul_ll(self.s, other.txzw) + mul_ll(self.tw, other.xz) + mul_ll(self.tx, other.zw) + mul_ll(self.txyw, other.yz) - mul_ll(self.txyz, other.yw) + mul_ll(self.txzw, other.s) - mul_ll(self.ty, other.xyzw) - mul_ll(self.tyzw, other.xy) - mul_ll(self.tz, other.xw) - mul_ll(self.xw, other.tz) + mul_ll(self.xy, other.tyzw) + mul_ll(self.xyzw, other.ty) + mul_ll(self.xz, other.tw) + mul_ll(self.yw, other.txyz) - mul_ll(self.yz, other.txyw) + mul_ll(self.zw, other.tx),
            tyzw: mul_ll(self.s, other.tyzw) + mul_ll(self.tw, other.yz) + mul_ll(self.tx, other.xyzw) - mul_ll(self.txyw, other.xz) + mul_ll(self.txyz, other.xw) + mul_ll(self.txzw, other.xy) + mul_ll(self.ty, other.zw) + mul_ll(self.tyzw, other.s) - mul_ll(self.tz, other.yw) - mul_ll(self.xw, other.txyz) - mul_ll(self.xy, other.txzw) - mul_ll(self.xyzw, other.tx) + mul_ll(self.xz, other.txyw) - mul_ll(self.yw, other.tz) + mul_ll(self.yz, other.tw) + mul_ll(self.zw, other.ty),
            xyzw: mul_ll(self.s, other.xyzw) + mul_ll(self.xw, other.yz) + mul_ll(self.xy, other.zw) + mul_ll(self.xyzw, other.s) - mul_ll(self.xz, other.yw) - mul_ll(self.yw, other.xz) + mul_ll(self.yz, other.xw) + mul_ll(self.zw, other.xy),
            den: mul_ll(self.den, other.den),
        }
    }

    /// Grade reversal; for a unit motor, the inverse motion.
    pub fn reverse(self) -> (r: Transform)
        requires
            self.tx != i128::MIN,
            self.ty != i128::MIN,
            self.tz != i128::MIN,
            self.tw != i128::MIN,
            self.xy != i128::MIN,
            self.xz != i128::MIN,
            self.xw != i128::MIN,
            self.yz != i128::MIN,
            self.yw != i128::MIN,
            self.zw != i128::MIN,
        ensures
            r@ == tv_rev(self@),
    {
        Transform {
            s: self.s,
            tx: -self.tx,
            ty: -self.ty,
            tz: -self.tz,
            tw: -self.tw,
            xy: -self.xy,
            xz: -self.xz,
            xw: -self.xw,
            yz: -self.yz,
            yw: -self.yw,
            zw: -self.zw,
            txyz: self.txyz,
            txyw: self.txyw,
            txzw: self.txzw,
            tyzw: self.tyzw,
            xyzw: self.xyzw,
            den: self.den,
        }
    }

    /// The image of the point `p` under this motion.
    pub fn transform_point(self, p: Vec4) -> (r: Vec4)
        requires
            tv_bounded(self@, SANDWICH_LIMIT as int),
            -SANDWICH_LIMIT <= p.x <= SANDWICH_LIMIT,
            -SANDWICH_LIMIT <= p.y <= SANDWICH_LIMIT,
            -SANDWICH_LIMIT <= p.z <= SANDWICH_LIMIT,
            -SANDWICH_LIMIT <= p.w <= SANDWICH_LIMIT,
            0 < p.den <= SANDWICH_LIMIT,
        ensures
            r@ == tv_point(self@, p@),
            r.den > 0,
    {
        Vec4 {
            x: point_coord_x(&self, &p),
            y: point_coord_y(&self, &p),
            z: point_coord_z(&self, &p),
            w: point_coord_w(&self, &p),
            den: mul3(self.den, self.den, p.den),
        }
    }

    /// The image of the direction `v` under the rotation part of this
    /// motion (translation does not move directions).
    pub fn transform_direction(self, v: Vec4) -> (r: Vec4)
        requires
            tv_bounded(self@, SANDWICH_LIMIT as int),
            -SANDWICH_LIMIT <= v.x <= SANDWICH_LIMIT,
            -SANDWICH_LIMIT <= v.y <= SANDWICH_LIMIT,
            -SANDWICH_LIMIT <= v.z <= SANDWICH_LIMIT,
            -SANDWICH_LIMIT <= v.w <= SANDWICH_LIMIT,
            0 < v.den <= SANDWICH_LIMIT,
        ensures
            r@ == rv_dir(tv_rotor_part(self@), v@),
            r.den > 0,
    {
        self.rotor_part().transform_direction(v)
    }

    /// Where this motion places the origin.
    pub fn position(self) -> (r: Vec4)
        requires
            tv_bounded(self@, SANDWICH_LIMIT as int),
        ensures
            r@ == tv_point(self@, v4_origin()),
            r.den > 0,
    {
        self.transform_point(Vec4 { x: 0, y: 0, z: 0, w: 0, den: 1 })
    }

    /// The image of the canonical `x` basis direction under the rotation
    /// part of this motion.
    pub fn forward(self) -> (r: Vec4)
        requires
            tv_bounded(self@, SANDWICH_LIMIT as int),
        ensures
            r@ == rv_dir(tv_rotor_part(self@), crate::vec::v4_unit_x()),
            r.den > 0,
    {
        self.rotor_part().forward()
    }

    /// The image of the canonical `y` basis direction under the rotation
    /// part of this motion.
    pub fn up(self) -> (r: Vec4)
        requires
            tv_bounded(self@, SANDWICH_LIMIT as int),
        ensures
            r@ == rv_dir(tv_rotor_part(self@), crate::vec::v4_unit_y()),
            r.den > 0,
    {
        self.rotor_part().up()
    }

    /// The image of the canonical `z` basis direction under the rotation
    /// part of this motion.
    pub fn right(self) -> (r: Vec4)
        requires
            tv_bounded(self@, SANDWICH_LIMIT as int),
        ensures
            r@ == rv_dir(tv_rotor_part(self@), crate::vec::v4_unit_z()),
            r.den > 0,
    {
        self.rotor_part().right()
    }

    /// The image of the canonical `w` basis direction under the rotation
    /// part of this motion.
    pub fn ana(self) -> (r: Vec4)
        requires
            tv_bounded(self@, SANDWICH_LIMIT as int),
        ensures
            r@ == rv_dir(tv_rotor_part(self@), crate::vec::v4_unit_w()),
            r.den > 0,
    {
        self.rotor_part().ana()
    }

    /// Lifts a pure rotation into motor space by zero-filling the
    /// translation-grade parts.
    pub fn from_rotor(rotor: Rotor) -> (r: Transform)
        ensures
            r@ == tv_from_rotor(rotor@),
    {
        Transform {
            s: rotor.s,
            tx: 0,
            ty: 0,
            tz: 0,
            tw: 0,
            xy: rotor.xy,
            xz: rotor.xz,
            xw: rotor.xw,
            yz: rotor.yz,
            yw: rotor.yw,
            zw: rotor.zw,
            txyz: 0,
            txyw: 0,
            txzw: 0,
            tyzw: 0,
            xyzw: rotor.xyzw,
            den: rotor.den,
        }
    }

    /// The embedded rotor of this motion: its rotation with the
    /// translation-grade parts dropped.
    pub fn rotor_part(self) -> (r: Rotor)
        ensures
            r@ == tv_rotor_part(self@),
    {
        Rotor {
            s: self.s,
            xy: self.xy,
            xz: self.xz,
            xw: self.xw,
            yz: self.yz,
            yw: self.yw,
            zw: self.zw,
            xyzw: self.xyzw,
            den: self.den,
        }
    }
}

/// The identity motor composes as a neutral element on both sides.
pub proof fn lemma_motor_identity(t: TransformV)
    ensures
        tv_mul(tv_id(), t) == t,
        tv_mul(t, tv_id()) == t,
{
    assert(tv_mul(tv_id(), t) =~= t);
    assert(tv_mul(t, tv_id()) =~= t);
}

/// Reversing a motor twice gives the original motor back.
pub proof fn lemma_motor_reverse_involution(t: TransformV)
    ensures
        tv_rev(tv_rev(t)) == t,
{
    assert(tv_rev(tv_rev(t)) =~= t);
}

/// Applying a pure translation by `v` to the origin yields exactly `v`.
#[verifier::rlimit(100)]
pub proof fn lemma_translation_moves_origin(v: Vec4V)
    requires
        v4_wf(v),
    ensures
        v4_eq(tv_point(tv_translation(v), v4_origin()), v),
        tv_point(tv_translation(v), v4_origin()).den > 0,
{
    let t = tv_translation(v);
    let origin = v4_origin();
    let out = tv_point(t, origin);
    assert(out.x * v.den == v.x * out.den) by (nonlinear_arith)
        requires
            out.x == 2 * (t.s * t.tx * 1) - 2 * (t.tw * t.xw * 1) + 2 * (t.txyw * t.yw * 1) + 2 * (t.txyz * t.yz * 1) + 2 * (t.txzw * t.zw * 1) - 2 * (t.ty * t.xy * 1) - 2 * (t.tyzw * t.xyzw * 1) - 2 * (t.tz * t.xz * 1),
            out.den == t.den * t.den * 1,
            t.s == 2 * v.den,
            t.tx == v.x,
            t.ty == v.y,
            t.tz == v.z,
            t.tw == v.w,
            t.xy == 0,
            t.xz == 0,
            t.xw == 0,
            t.yz == 0,
            t.yw == 0,
            t.zw == 0,
            t.txyz == 0,
            t.txyw == 0,
            t.txzw == 0,
            t.tyzw == 0,
            t.xyzw == 0,
            t.den == 2 * v.den;
    assert(out.y * v.den == v.y * out.den) by (nonlinear_arith)
        requires
            out.y == 2 * (t.s * t.ty * 1) - 2 * (t.tw * t.yw * 1) + 2 * (t.tx * t.xy * 1) - 2 * (t.txyw * t.xw * 1) - 2 * (t.txyz * t.xz * 1) + 2 * (t.txzw * t.xyzw * 1) + 2 * (t.tyzw * t.zw * 1) - 2 * (t.tz * t.yz * 1),
            out.den == t.den * t.den * 1,
            t.s == 2 * v.den,
            t.tx == v.x,
            t.ty == v.y,
            t.tz == v.z,
            t.tw == v.w,
            t.xy == 0,
            t.xz == 0,
            t.xw == 0,
            t.yz == 0,
            t.yw == 0,
            t.zw == 0,
            t.txyz == 0,
            t.txyw == 0,
            t.txzw == 0,
            t.tyzw == 0,
            t.xyzw == 0,
            t.den == 2 * v.den;
    assert(out.z * v.den == v.z * out.den) by (nonlinear_arith)
        requires
            out.z == 2 * (t.s * t.tz * 1) - 2 * (t.tw * t.zw * 1) + 2 * (t.tx * t.xz * 1) - 2 * (t.txyw * t.xyzw * 1) + 2 * (t.txyz * t.xy * 1) - 2 * (t.txzw * t.xw * 1) + 2 * (t.ty * t.yz * 1) - 2 * (t.tyzw * t.yw * 1),
            out.den == t.den * t.den * 1,
            t.s == 2 * v.den,
            t.tx == v.x,
            t.ty == v.y,
            t.tz == v.z,
            t.tw == v.w,
            t.xy == 0,
            t.xz == 0,
            t.xw == 0,
            t.yz == 0,
            t.yw == 0,
            t.zw == 0,
            t.txyz == 0,
            t.txyw == 0,
            t.txzw == 0,
            t.tyzw == 0,
            t.xyzw == 0,
            t.den == 2 * v.den;
    assert(out.w * v.den == v.w * out.den) by (nonlinear_arith)
        requires
            out.w == 2 * (t.s * t.tw * 1) + 2 * (t.tx * t.xw * 1) + 2 * (t.txyw * t.xy * 1) + 2 * (t.txyz * t.xyzw * 1) + 2 * (t.txzw * t.xz * 1) + 2 * (t.ty * t.yw * 1) + 2 * (t.tyzw * t.yz * 1) + 2 * (t.tz * t.zw * 1),
            out.den == t.den * t.den * 1,
            t.s == 2 * v.den,
            t.tx == v.x,
            t.ty == v.y,
            t.tz == v.z,
            t.tw == v.w,
            t.xy == 0,
            t.xz == 0,
            t.xw == 0,
            t.yz == 0,
            t.yw == 0,
            t.zw == 0,
            t.txyz == 0,
            t.txyw == 0,
            t.txzw == 0,
            t.tyzw == 0,
            t.xyzw == 0,
            t.den == 2 * v.den;
    assert(out.den > 0) by (nonlinear_arith)
        requires
            out.den == t.den * t.den * 1,
            t.den == 2 * v.den,
            v.den > 0,
    ;
}

/// A pure rotation fixes the origin: lifting any rotor to a motor and
/// applying it to the origin yields the origin again.
pub proof fn lemma_rotor_fixes_origin(r: RotorV)
    requires
        rv_wf(r),
    ensures
        v4_eq(tv_point(tv_from_rotor(r), v4_origin()), v4_origin()),
        tv_point(tv_from_rotor(r), v4_origin()).den > 0,
{
    let t = tv_from_rotor(r);
    let out = tv_point(t, v4_origin());
    assert(out.x == 0 && out.y == 0 && out.z == 0 && out.w == 0) by (nonlinear_arith)
        requires
            t == tv_from_rotor(r),
            out == tv_point(t, v4_origin()),
    ;
    assert(out.den > 0) by (nonlinear_arith)
        requires
            out.den == t.den * t.den * 1,
            t.den == r.den,
            r.den > 0,
    ;
}

/// Entry bounds are preserved through motor composition: each entry of
/// the product is a sum of sixteen two-entry products.
pub proof fn lemma_motor_mul_bounded(a: TransformV, b: TransformV, ma: int, mb: int)
    requires
        tv_bounded(a, ma),
        tv_bounded(b, mb),
    ensures
        tv_bounded(tv_mul(a, b), 16 * (ma * mb)),
{
    lemma_prod_bound(a.s, b.s, ma, mb);
    lemma_prod_bound(a.s, b.tx, ma, mb);
    lemma_prod_bound(a.s, b.ty, ma, mb);
    lemma_prod_bound(a.s, b.tz, ma, mb);
    lemma_prod_bound(a.s, b.tw, ma, mb);
    lemma_prod_bound(a.s, b.xy, ma, mb);
    lemma_prod_bound(a.s, b.xz, ma, mb);
    lemma_prod_bound(a.s, b.xw, ma, mb);
    lemma_prod_bound(a.s, b.yz, ma, mb);
    lemma_prod_bound(a.s, b.yw, ma, mb);
    lemma_prod_bound(a.s, b.zw, ma, mb);
    lemma_prod_bound(a.s, b.txyz, ma, mb);
    lemma_prod_bound(a.s, b.txyw, ma, mb);
    lemma_prod_bound(a.s, b.txzw, ma, mb);
    lemma_prod_bound(a.s, b.tyzw, ma, mb);
    lemma_prod_bound(a.s, b.xyzw, ma, mb);
    lemma_prod_bound(a.tx, b.s, ma, mb);
    lemma_prod_bound(a.tx, b.tx, ma, mb);
    lemma_prod_bound(a.tx, b.ty, ma, mb);
    lemma_prod_bound(a.tx, b.tz, ma, mb);
    lemma_prod_bound(a.tx, b.tw, ma, mb);
    lemma_prod_bound(a.tx, b.xy, ma, mb);
    lemma_prod_bound(a.tx, b.xz, ma, mb);
    lemma_prod_bound(a.tx, b.xw, ma, mb);
    lemma_prod_bound(a.tx, b.yz, ma, mb);
    lemma_prod_bound(a.tx, b.yw, ma, mb);
    lemma_prod_bound(a.tx, b.zw, ma, mb);
    lemma_prod_bound(a.tx, b.txyz, ma, mb);
    lemma_prod_bound(a.tx, b.txyw, ma, mb);
    lemma_prod_bound(a.tx, b.txzw, ma, mb);
    lemma_prod_bound(a.tx, b.tyzw, ma, mb);
    lemma_prod_bound(a.tx, b.xyzw, ma, mb);
    lemma_prod_bound(a.ty, b.s, ma, mb);
    lemma_prod_bound(a.ty, b.tx, ma, mb);
    lemma_prod_bound(a.ty, b.ty, ma, mb);
    lemma_prod_bound(a.ty, b.tz, ma, mb);
    lemma_prod_bound(a.ty, b.tw, ma, mb);
    lemma_prod_bound(a.ty, b.xy, ma, mb);
    lemma_prod_bound(a.ty, b.xz, ma, mb);
    lemma_prod_bound(a.ty, b.xw, ma, mb);
    lemma_prod_bound(a.ty, b.yz, ma, mb);
    lemma_prod_bound(a.ty, b.yw, ma, mb);
    lemma_prod_bound(a.ty, b.zw, ma, mb);
    lemma_prod_bound(a.ty, b.txyz, ma, mb);
    lemma_prod_bound(a.ty, b.txyw, ma, mb);
    lemma_prod_bound(a.ty, b.txzw, ma, mb);
    lemma_prod_bound(a.ty, b.tyzw, ma, mb);
    lemma_prod_bound(a.ty, b.xyzw, ma, mb);
    lemma_prod_bound(a.tz, b.s, ma, mb);
    lemma_prod_bound(a.tz, b.tx, ma, mb);
    lemma_prod_bound(a.tz, b.ty, ma, mb);
    lemma_prod_bound(a.tz, b.tz, ma, mb);
    lemma_prod_bound(a.tz, b.tw, ma, mb);
    lemma_prod_bound(a.tz, b.xy, ma, mb);
    lemma_prod_bound(a.tz, b.xz, ma, mb);
    lemma_prod_bound(a.tz, b.xw, ma, mb);
    lemma_prod_bound(a.tz, b.yz, ma, mb);
    lemma_prod_bound(a.tz, b.yw, ma, mb);
    lemma_prod_bound(a.tz, b.zw, ma, mb);
    lemma_prod_bound(a.tz, b.txyz, ma, mb);
    lemma_prod_bound(a.tz, b.txyw, ma, mb);
    lemma_prod_bound(a.tz, b.txzw, ma, mb);
    lemma_prod_bound(a.tz, b.tyzw, ma, mb);
    lemma_prod_bound(a.tz, b.xyzw, ma, mb);
    lemma_prod_bound(a.tw, b.s, ma, mb);
    lemma_prod_bound(a.tw, b.tx, ma, mb);
    lemma_prod_bound(a.tw, b.ty, ma, mb);
    lemma_prod_bound(a.tw, b.tz, ma, mb);
    lemma_prod_bound(a.tw, b.tw, ma, mb);
    lemma_prod_bound(a.tw, b.xy, ma, mb);
    lemma_prod_bound(a.tw, b.xz, ma, mb);
    lemma_prod_bound(a.tw, b.xw, ma, mb);
    lemma_prod_bound(a.tw, b.yz, ma, mb);
    lemma_prod_bound(a.tw, b.yw, ma, mb);
    lemma_prod_bound(a.tw, b.zw, ma, mb);
    lemma_prod_bound(a.tw, b.txyz, ma, mb);
    lemma_prod_bound(a.tw, b.txyw, ma, mb);
    lemma_prod_bound(a.tw, b.txzw, ma, mb);
    lemma_prod_bound(a.tw, b.tyzw, ma, mb);
    lemma_prod_bound(a.tw, b.xyzw, ma, mb);
    lemma_prod_bound(a.xy, b.s, ma, mb);
    lemma_prod_bound(a.xy, b.tx, ma, mb);
    lemma_prod_bound(a.xy, b.ty, ma, mb);
    lemma_prod_bound(a.xy, b.tz, ma, mb);
    lemma_prod_bound(a.xy, b.tw, ma, mb);
    lemma_prod_bound(a.xy, b.xy, ma, mb);
    lemma_prod_bound(a.xy, b.xz, ma, mb);
    lemma_prod_bound(a.xy, b.xw, ma, mb);
    lemma_prod_bound(a.xy, b.yz, ma, mb);
    lemma_prod_bound(a.xy, b.yw, ma, mb);
    lemma_prod_bound(a.xy, b.zw, ma, mb);
    lemma_prod_bound(a.xy, b.txyz, ma, mb);
    lemma_prod_bound(a.xy, b.txyw, ma, mb);
    lemma_prod_bound(a.xy, b.txzw, ma, mb);
    lemma_prod_bound(a.xy, b.tyzw, ma, mb);
    lemma_prod_bound(a.xy, b.xyzw, ma, mb);
    lemma_prod_bound(a.xz, b.s, ma, mb);
    lemma_prod_bound(a.xz, b.tx, ma, mb);
    lemma_prod_bound(a.xz, b.ty, ma, mb);
    lemma_prod_bound(a.xz, b.tz, ma, mb);
    lemma_prod_bound(a.xz, b.tw, ma, mb);
    lemma_prod_bound(a.xz, b.xy, ma, mb);
    lemma_prod_bound(a.xz, b.xz, ma, mb);
    lemma_prod_bound(a.xz, b.xw, ma, mb);
    lemma_prod_bound(a.xz, b.yz, ma, mb);
    lemma_prod_bound(a.xz, b.yw, ma, mb);
    lemma_prod_bound(a.xz, b.zw, ma, mb);
    lemma_prod_bound(a.xz, b.txyz, ma, mb);
    lemma_prod_bound(a.xz, b.txyw, ma, mb);
    lemma_prod_bound(a.xz, b.txzw, ma, mb);
    lemma_prod_bound(a.xz, b.tyzw, ma, mb);
    lemma_prod_bound(a.xz, b.xyzw, ma, mb);
    lemma_prod_bound(a.xw, b.s, ma, mb);
    lemma_prod_bound(a.xw, b.tx, ma, mb);
    lemma_prod_bound(a.xw, b.ty, ma, mb);
    lemma_prod_bound(a.xw, b.tz, ma, mb);
    lemma_prod_bound(a.xw, b.tw, ma, mb);
    lemma_prod_bound(a.xw, b.xy, ma, mb);
    lemma_prod_bound(a.xw, b.xz, ma, mb);
    lemma_prod_bound(a.xw, b.xw, ma, mb);
    lemma_prod_bound(a.xw, b.yz, ma, mb);
    lemma_prod_bound(a.xw, b.yw, ma, mb);
    lemma_prod_bound(a.xw, b.zw, ma, mb);
    lemma_prod_bound(a.xw, b.txyz, ma, mb);
    lemma_prod_bound(a.xw, b.txyw, ma, mb);
    lemma_prod_bound(a.xw, b.txzw, ma, mb);
    lemma_prod_bound(a.xw, b.tyzw, ma, mb);
    lemma_prod_bound(a.xw, b.xyzw, ma, mb);
    lemma_prod_bound(a.yz, b.s, ma, mb);
    lemma_prod_bound(a.yz, b.tx, ma, mb);
    lemma_prod_bound(a.yz, b.ty, ma, mb);
    lemma_prod_bound(a.yz, b.tz, ma, mb);
    lemma_prod_bound(a.yz, b.tw, ma, mb);
    lemma_prod_bound(a.yz, b.xy, ma, mb);
    lemma_prod_bound(a.yz, b.xz, ma, mb);
    lemma_prod_bound(a.yz, b.xw, ma, mb);
    lemma_prod_bound(a.yz, b.yz, ma, mb);
    lemma_prod_bound(a.yz, b.yw, ma, mb);
    lemma_prod_bound(a.yz, b.zw, ma, mb);
    lemma_prod_bound(a.yz, b.txyz, ma, mb);
    lemma_prod_bound(a.yz, b.txyw, ma, mb);
    lemma_prod_bound(a.yz, b.txzw, ma, mb);
    lemma_prod_bound(a.yz, b.tyzw, ma, mb);
    lemma_prod_bound(a.yz, b.xyzw, ma, mb);
    lemma_prod_bound(a.yw, b.s, ma, mb);
    lemma_prod_bound(a.yw, b.tx, ma, mb);
    lemma_prod_bound(a.yw, b.ty, ma, mb);
    lemma_prod_bound(a.yw, b.tz, ma, mb);
    lemma_prod_bound(a.yw, b.tw, ma, mb);
    lemma_prod_bound(a.yw, b.xy, ma, mb);
    lemma_prod_bound(a.yw, b.xz, ma, mb);
    lemma_prod_bound(a.yw, b.xw, ma, mb);
    lemma_prod_bound(a.yw, b.yz, ma, mb);
    lemma_prod_bound(a.yw, b.yw, ma, mb);
    lemma_prod_bound(a.yw, b.zw, ma, mb);
    lemma_prod_bound(a.yw, b.txyz, ma, mb);
    lemma_prod_bound(a.yw, b.txyw, ma, mb);
    lemma_prod_bound(a.yw, b.txzw, ma, mb);
    lemma_prod_bound(a.yw, b.tyzw, ma, mb);
    lemma_prod_bound(a.yw, b.xyzw, ma, mb);
    lemma_prod_bound(a.zw, b.s, ma, mb);
    lemma_prod_bound(a.zw, b.tx, ma, mb);
    lemma_prod_bound(a.zw, b.ty, ma, mb);
    lemma_prod_bound(a.zw, b.tz, ma, mb);
    lemma_prod_bound(a.zw, b.tw, ma, mb);
    lemma_prod_bound(a.zw, b.xy, ma, mb);
    lemma_prod_bound(a.zw, b.xz, ma, mb);
    lemma_prod_bound(a.zw, b.xw, ma, mb);
    lemma_prod_bound(a.zw, b.yz, ma, mb);
    lemma_prod_bound(a.zw, b.yw, ma, mb);
    lemma_prod_bound(a.zw, b.zw, ma, mb);
    lemma_prod_bound(a.zw, b.txyz, ma, mb);
    lemma_prod_bound(a.zw, b.txyw, ma, mb);
    lemma_prod_bound(a.zw, b.txzw, ma, mb);
    lemma_prod_bound(a.zw, b.tyzw, ma, mb);
    lemma_prod_bound(a.zw, b.xyzw, ma, mb);
    lemma_prod_bound(a.txyz, b.s, ma, mb);
    lemma_prod_bound(a.txyz, b.tx, ma, mb);
    lemma_prod_bound(a.txyz, b.ty, ma, mb);
    lemma_prod_bound(a.txyz, b.tz, ma, mb);
    lemma_prod_bound(a.txyz, b.tw, ma, mb);
    lemma_prod_bound(a.txyz, b.xy, ma, mb);
    lemma_prod_bound(a.txyz, b.xz, ma, mb);
    lemma_prod_bound(a.txyz, b.xw, ma, mb);
    lemma_prod_bound(a.txyz, b.yz, ma, mb);
    lemma_prod_bound(a.txyz, b.yw, ma, mb);
    lemma_prod_bound(a.txyz, b.zw, ma, mb);
    lemma_prod_bound(a.txyz, b.txyz, ma, mb);
    lemma_prod_bound(a.txyz, b.txyw, ma, mb);
    lemma_prod_bound(a.txyz, b.txzw, ma, mb);
    lemma_prod_bound(a.txyz, b.tyzw, ma, mb);
    lemma_prod_bound(a.txyz, b.xyzw, ma, mb);
    lemma_prod_bound(a.txyw, b.s, ma, mb);
    lemma_prod_bound(a.txyw, b.tx, ma, mb);
    lemma_prod_bound(a.txyw, b.ty, ma, mb);
    lemma_prod_bound(a.txyw, b.tz, ma, mb);
    lemma_prod_bound(a.txyw, b.tw, ma, mb);
    lemma_prod_bound(a.txyw, b.xy, ma, mb);
    lemma_prod_bound(a.txyw, b.xz, ma, mb);
    lemma_prod_bound(a.txyw, b.xw, ma, mb);
    lemma_prod_bound(a.txyw, b.yz, ma, mb);
    lemma_prod_bound(a.txyw, b.yw, ma, mb);
    lemma_prod_bound(a.txyw, b.zw, ma, mb);
    lemma_prod_bound(a.txyw, b.txyz, ma, mb);
    lemma_prod_bound(a.txyw, b.txyw, ma, mb);
    lemma_prod_bound(a.txyw, b.txzw, ma, mb);
    lemma_prod_bound(a.txyw, b.tyzw, ma, mb);
    lemma_prod_bound(a.txyw, b.xyzw, ma, mb);
    lemma_prod_bound(a.txzw, b.s, ma, mb);
    lemma_prod_bound(a.txzw, b.tx, ma, mb);
    lemma_prod_bound(a.txzw, b.ty, ma, mb);
    lemma_prod_bound(a.txzw, b.tz, ma, mb);
    lemma_prod_bound(a.txzw, b.tw, ma, mb);
    lemma_prod_bound(a.txzw, b.xy, ma, mb);
    lemma_prod_bound(a.txzw, b.xz, ma, mb);
    lemma_prod_bound(a.txzw, b.xw, ma, mb);
    lemma_prod_bound(a.txzw, b.yz, ma, mb);
    lemma_prod_bound(a.txzw, b.yw, ma, mb);
    lemma_prod_bound(a.txzw, b.zw, ma, mb);
    lemma_prod_bound(a.txzw, b.txyz, ma, mb);
    lemma_prod_bound(a.txzw, b.txyw, ma, mb);
    lemma_prod_bound(a.txzw, b.txzw, ma, mb);
    lemma_prod_bound(a.txzw, b.tyzw, ma, mb);
    lemma_prod_bound(a.txzw, b.xyzw, ma, mb);
    lemma_prod_bound(a.tyzw, b.s, ma, mb);
    lemma_prod_bound(a.tyzw, b.tx, ma, mb);
    lemma_prod_bound(a.tyzw, b.ty, ma, mb);
    lemma_prod_bound(a.tyzw, b.tz, ma, mb);
    lemma_prod_bound(a.tyzw, b.tw, ma, mb);
    lemma_prod_bound(a.tyzw, b.xy, ma, mb);
    lemma_prod_bound(a.tyzw, b.xz, ma, mb);
    lemma_prod_bound(a.tyzw, b.xw, ma, mb);
    lemma_prod_bound(a.tyzw, b.yz, ma, mb);
    lemma_prod_bound(a.tyzw, b.yw, ma, mb);
    lemma_prod_bound(a.tyzw, b.zw, ma, mb);
    lemma_prod_bound(a.tyzw, b.txyz, ma, mb);
    lemma_prod_bound(a.tyzw, b.txyw, ma, mb);
    lemma_prod_bound(a.tyzw, b.txzw, ma, mb);
    lemma_prod_bound(a.tyzw, b.tyzw, ma, mb);
    lemma_prod_bound(a.tyzw, b.xyzw, ma, mb);
    lemma_prod_bound(a.xyzw, b.s, ma, mb);
    lemma_prod_bound(a.xyzw, b.tx, ma, mb);
    lemma_prod_bound(a.xyzw, b.ty, ma, mb);
    lemma_prod_bound(a.xyzw, b.tz, ma, mb);
    lemma_prod_bound(a.xyzw, b.tw, ma, mb);
    lemma_prod_bound(a.xyzw, b.xy, ma, mb);
    lemma_prod_bound(a.xyzw, b.xz, ma, mb);
    lemma_prod_bound(a.xyzw, b.xw, ma, mb);
    lemma_prod_bound(a.xyzw, b.yz, ma, mb);
    lemma_prod_bound(a.xyzw, b.yw, ma, mb);
    lemma_prod_bound(a.xyzw, b.zw, ma, mb);
    lemma_prod_bound(a.xyzw, b.txyz, ma, mb);
    lemma_prod_bound(a.xyzw, b.txyw, ma, mb);
    lemma_prod_bound(a.xyzw, b.txzw, ma, mb);
    lemma_prod_bound(a.xyzw, b.tyzw, ma, mb);
    lemma_prod_bound(a.xyzw, b.xyzw, ma, mb);
    lemma_prod_bound(a.den, b.den, ma, mb);
}

} // verus!
