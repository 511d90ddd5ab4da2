//! Exact checks of the rotor and motor algebra on concrete values.
//!
//! Half-angle pairs are exact rational points on the unit circle built from
//! Pythagorean triples, so every equality below is exact.

use hyperray::motor::Transform;
use hyperray::rotor::{HalfAngle, Rotor};
use hyperray::vec::Vec4;

fn ha(n: i64, d: i64) -> HalfAngle {
    HalfAngle::from_half_tangent(n, d)
}

#[test]
fn half_tangent_pairs_are_unit() {
    let h = ha(1, 2);
    assert_eq!(h.cos, 3);
    assert_eq!(h.sin, 4);
    assert_eq!(h.den, 5);
    let h = ha(2, 3);
    assert_eq!(h.cos, 5);
    assert_eq!(h.sin, 12);
    assert_eq!(h.den, 13);
}

#[test]
fn identity_is_neutral() {
    let r = Rotor::rotate_xy(ha(1, 2)).and_then(Rotor::rotate_zw(ha(2, 3)));
    assert_eq!(Rotor::identity().and_then(r), r);
    assert_eq!(r.and_then(Rotor::identity()), r);
}

#[test]
fn composition_is_associative() {
    let a = Rotor::rotate_xy(ha(1, 2));
    let b = Rotor::rotate_xz(ha(2, 3));
    let c = Rotor::rotate_yw(ha(1, 3));
    assert_eq!(a.and_then(b).and_then(c), a.and_then(b.and_then(c)));
}

#[test]
fn composition_is_not_commutative() {
    let a = Rotor::rotate_xy(ha(1, 2));
    let b = Rotor::rotate_xz(ha(2, 3));
    assert_ne!(a.and_then(b), b.and_then(a));
}

#[test]
fn reverse_is_an_involution() {
    let r = Rotor::rotate_xw(ha(1, 2)).and_then(Rotor::rotate_yz(ha(3, 4)));
    assert_eq!(r.reverse().reverse(), r);
}

#[test]
fn opposite_angles_cancel() {
    let h = ha(1, 2);
    let product = Rotor::rotate_xy(h).and_then(Rotor::rotate_xy(h.negated()));
    // The product denotes the identity: scalar part one, everything else zero.
    assert_eq!(product.s, product.den);
    assert!(product.den > 0);
    for v in [
        product.xy, product.xz, product.xw, product.yz, product.yw, product.zw, product.xyzw,
    ] {
        assert_eq!(v, 0);
    }
}

#[test]
fn plane_angles_add() {
    let h1 = ha(1, 2);
    let h2 = ha(2, 3);
    // The half-angle pair of the angle sum.
    let sum = HalfAngle {
        cos: h1.cos * h2.cos - h1.sin * h2.sin,
        sin: h1.sin * h2.cos + h1.cos * h2.sin,
        den: h1.den * h2.den,
    };
    assert_eq!(
        Rotor::rotate_yw(h1).and_then(Rotor::rotate_yw(h2)),
        Rotor::rotate_yw(sum)
    );
}

#[test]
fn valid_rotors_stay_valid() {
    // reverse(r) * r == 1 exactly, for a composite rotor.
    let r = Rotor::rotate_xy(ha(1, 2)).and_then(Rotor::rotate_zw(ha(2, 3)));
    let m = r.reverse().and_then(r);
    assert_eq!(m.s, m.den);
    for v in [m.xy, m.xz, m.xw, m.yz, m.yw, m.zw, m.xyzw] {
        assert_eq!(v, 0);
    }
}

#[test]
fn rotation_turns_forward_in_plane() {
    // Half-angle pair (3, 4, 5) denotes the full angle with
    // cos = -7/25, sin = 24/25; the x axis turns into the xy plane.
    let r = Rotor::rotate_xy(ha(1, 2));
    let f = r.forward();
    assert_eq!((f.x, f.y, f.z, f.w, f.den), (-7, 24, 0, 0, 25));
    let u = r.up();
    assert_eq!((u.x, u.y, u.z, u.w, u.den), (-24, -7, 0, 0, 25));
    let z = r.right();
    assert_eq!((z.x, z.y, z.z, z.w, z.den), (0, 0, 25, 0, 25));
    let a = r.ana();
    assert_eq!((a.x, a.y, a.z, a.w, a.den), (0, 0, 0, 25, 25));
}

#[test]
fn identity_rotor_keeps_directions() {
    let r = Rotor::identity();
    let v = Vec4 { x: 5, y: 6, z: 7, w: 8, den: 3 };
    let out = r.transform_direction(v);
    assert_eq!((out.x, out.y, out.z, out.w, out.den), (5, 6, 7, 8, 3));
}

#[test]
fn translation_moves_the_origin() {
    let v = Vec4 { x: 10, y: 20, z: 30, w: 40, den: 2 };
    let t = Transform::translation(v);
    let p = t.position();
    assert!(p.den > 0);
    // p == v as rationals.
    assert_eq!(p.x * v.den, v.x * p.den);
    assert_eq!(p.y * v.den, v.y * p.den);
    assert_eq!(p.z * v.den, v.z * p.den);
    assert_eq!(p.w * v.den, v.w * p.den);
}

#[test]
fn translation_moves_points() {
    let v = Vec4 { x: 1, y: 2, z: 3, w: 4, den: 1 };
    let t = Transform::translation(v);
    let p = t.transform_point(Vec4 { x: 10, y: 10, z: 10, w: 10, den: 1 });
    assert_eq!(p.x * 1, 11 * p.den);
    assert_eq!(p.y * 1, 12 * p.den);
    assert_eq!(p.z * 1, 13 * p.den);
    assert_eq!(p.w * 1, 14 * p.den);
}

#[test]
fn pure_rotation_fixes_the_origin() {
    let r = Rotor::rotate_xy(ha(1, 2)).and_then(Rotor::rotate_xw(ha(1, 3)));
    let t = Transform::from_rotor(r);
    let p = t.position();
    assert_eq!((p.x, p.y, p.z, p.w), (0, 0, 0, 0));
    assert!(p.den > 0);
}

#[test]
fn motor_composition_applies_left_to_right() {
    // Translate, and rotate a quarter-ish turn afterwards: the rotation
    // also turns the translated position.
    let shift = Transform::translation(Vec4 { x: 1, y: 0, z: 0, w: 0, den: 1 });
    let spin = Transform::rotate_xy(ha(1, 2));
    let p1 = shift.and_then(spin).position();
    // Rotating (1, 0, 0, 0) by cos=-7/25 sin=24/25 gives (-7/25, 24/25).
    assert_eq!(p1.x * 25, -7 * p1.den);
    assert_eq!(p1.y * 25, 24 * p1.den);
    // In the opposite order the rotation happens at the origin first and
    // the translation wins: the position is exactly (1, 0, 0, 0).
    let p2 = spin.and_then(shift).position();
    assert_eq!(p2.x, p2.den);
    assert_eq!((p2.y, p2.z, p2.w), (0, 0, 0));
}

#[test]
fn rotor_part_drops_translation() {
    let t = Transform::translation(Vec4 { x: 4, y: 6, z: 8, w: 2, den: 1 })
        .and_then(Transform::rotate_yz(ha(1, 4)));
    let r = t.rotor_part();
    assert_eq!(r.s, t.s);
    assert_eq!(r.xy, t.xy);
    assert_eq!(r.yz, t.yz);
    assert_eq!(r.den, t.den);
    let back = Transform::from_rotor(r);
    assert_eq!((back.tx, back.ty, back.tz, back.tw), (0, 0, 0, 0));
}
