//! The associativity of rotor composition.
//!
//! The proof works one entry at a time.  For each sign pattern an entry of
//! the composition can have, one small distribution lemma turns a two-entry
//! product into its eight canonical three-entry products; the component
//! lemmas instantiate those and let the linear solver match the two fully
//! expanded sides term by term.

use vstd::prelude::*;

use crate::rotor::{RotorV, rv_mul};

verus! {


proof fn lemma_mul_comm(x: int, y: int)
    by (nonlinear_arith)
    ensures
        x * y == y * x,
{
}

proof fn lemma_rot3(x: int, y: int, z: int)
    by (nonlinear_arith)
    ensures
        (y * z) * x == (x * y) * z,
{
}

proof fn lemma_dist_s_right(k: int, x1: int, y1: int, x2: int, y2: int, x3: int, y3: int, x4: int, y4: int, x5: int, y5: int, x6: int, y6: int, x7: int, y7: int, x8: int, y8: int, total: int)
    by (nonlinear_arith)
    requires
        total == x1 * y1 - x2 * y2 - x3 * y3 + x4 * y4 - x5 * y5 - x6 * y6 - x7 * y7 - x8 * y8,
    ensures
        total * k == (x1 * y1) * k - (x2 * y2) * k - (x3 * y3) * k + (x4 * y4) * k - (x5 * y5) * k - (x6 * y6) * k - (x7 * y7) * k - (x8 * y8) * k,
{
}

proof fn lemma_dist_xy_right(k: int, x1: int, y1: int, x2: int, y2: int, x3: int, y3: int, x4: int, y4: int, x5: int, y5: int, x6: int, y6: int, x7: int, y7: int, x8: int, y8: int, total: int)
    by (nonlinear_arith)
    requires
        total == x1 * y1 - x2 * y2 + x3 * y3 - x4 * y4 - x5 * y5 + x6 * y6 + x7 * y7 - x8 * y8,
    ensures
        total * k == (x1 * y1) * k - (x2 * y2) * k + (x3 * y3) * k - (x4 * y4) * k - (x5 * y5) * k + (x6 * y6) * k + (x7 * y7) * k - (x8 * y8) * k,
{
}

proof fn lemma_dist_xz_right(k: int, x1: int, y1: int, x2: int, y2: int, x3: int, y3: int, x4: int, y4: int, x5: int, y5: int, x6: int, y6: int, x7: int, y7: int, x8: int, y8: int, total: int)
    by (nonlinear_arith)
    requires
        total == x1 * y1 - x2 * y2 + x3 * y3 + x4 * y4 + x5 * y5 + x6 * y6 - x7 * y7 + x8 * y8,
    ensures
        total * k == (x1 * y1) * k - (x2 * y2) * k + (x3 * y3) * k + (x4 * y4) * k + (x5 * y5) * k + (x6 * y6) * k - (x7 * y7) * k + (x8 * y8) * k,
{
}

proof fn lemma_dist_xw_right(k: int, x1: int, y1: int, x2: int, y2: int, x3: int, y3: int, x4: int, y4: int, x5: int, y5: int, x6: int, y6: int, x7: int, y7: int, x8: int, y8: int, total: int)
    by (nonlinear_arith)
    requires
        total == x1 * y1 + x2 * y2 + x3 * y3 - x4 * y4 + x5 * y5 - x6 * y6 - x7 * y7 - x8 * y8,
    ensures
        total * k == (x1 * y1) * k + (x2 * y2) * k + (x3 * y3) * k - (x4 * y4) * k + (x5 * y5) * k - (x6 * y6) * k - (x7 * y7) * k - (x8 * y8) * k,
{
}

proof fn lemma_dist_yz_right(k: int, x1: int, y1: int, x2: int, y2: int, x3: int, y3: int, x4: int, y4: int, x5: int, y5: int, x6: int, y6: int, x7: int, y7: int, x8: int, y8: int, total: int)
    by (nonlinear_arith)
    requires
        total == x1 * y1 - x2 * y2 - x3 * y3 - x4 * y4 + x5 * y5 - x6 * y6 + x7 * y7 + x8 * y8,
    ensures
        total * k == (x1 * y1) * k - (x2 * y2) * k - (x3 * y3) * k - (x4 * y4) * k + (x5 * y5) * k - (x6 * y6) * k + (x7 * y7) * k + (x8 * y8) * k,
{
}

proof fn lemma_dist_yw_right(k: int, x1: int, y1: int, x2: int, y2: int, x3: int, y3: int, x4: int, y4: int, x5: int, y5: int, x6: int, y6: int, x7: int, y7: int, x8: int, y8: int, total: int)
    by (nonlinear_arith)
    requires
        total == x1 * y1 + x2 * y2 - x3 * y3 + x4 * y4 + x5 * y5 + x6 * y6 + x7 * y7 - x8 * y8,
    ensures
        total * k == (x1 * y1) * k + (x2 * y2) * k - (x3 * y3) * k + (x4 * y4) * k + (x5 * y5) * k + (x6 * y6) * k + (x7 * y7) * k - (x8 * y8) * k,
{
}

proof fn lemma_dist_zw_right(k: int, x1: int, y1: int, x2: int, y2: int, x3: int, y3: int, x4: int, y4: int, x5: int, y5: int, x6: int, y6: int, x7: int, y7: int, x8: int, y8: int, total: int)
    by (nonlinear_arith)
    requires
        total == x1 * y1 + x2 * y2 - x3 * y3 - x4 * y4 - x5 * y5 + x6 * y6 - x7 * y7 + x8 * y8,
    ensures
        total * k == (x1 * y1) * k + (x2 * y2) * k - (x3 * y3) * k - (x4 * y4) * k - (x5 * y5) * k + (x6 * y6) * k - (x7 * y7) * k + (x8 * y8) * k,
{
}

proof fn lemma_dist_xyzw_right(k: int, x1: int, y1: int, x2: int, y2: int, x3: int, y3: int, x4: int, y4: int, x5: int, y5: int, x6: int, y6: int, x7: int, y7: int, x8: int, y8: int, total: int)
    by (nonlinear_arith)
    requires
        total == x1 * y1 + x2 * y2 + x3 * y3 + x4 * y4 - x5 * y5 - x6 * y6 + x7 * y7 + x8 * y8,
    ensures
        total * k == (x1 * y1) * k + (x2 * y2) * k + (x3 * y3) * k + (x4 * y4) * k - (x5 * y5) * k - (x6 * y6) * k + (x7 * y7) * k + (x8 * y8) * k,
{
}

proof fn lemma_assoc_s(a: RotorV, b: RotorV, c: RotorV)
    ensures
        rv_mul(rv_mul(a, b), c).s == rv_mul(a, rv_mul(b, c)).s,
{
    let ab = rv_mul(a, b);
    let bc = rv_mul(b, c);
    lemma_dist_s_right(c.s, a.s, b.s, a.xw, b.xw, a.xy, b.xy, a.xyzw, b.xyzw, a.xz, b.xz, a.yw, b.yw, a.yz, b.yz, a.zw, b.zw, ab.s);
    assert(ab.s * c.s == (a.s * b.s) * c.s - (a.xw * b.xw) * c.s - (a.xy * b.xy) * c.s + (a.xyzw * b.xyzw) * c.s - (a.xz * b.xz) * c.s - (a.yw * b.yw) * c.s - (a.yz * b.yz) * c.s - (a.zw * b.zw) * c.s);
    lemma_dist_xw_right(c.xw, a.s, b.xw, a.xw, b.s, a.xy, b.yw, a.xyzw, b.yz, a.xz, b.zw, a.yw, b.xy, a.yz, b.xyzw, a.zw, b.xz, ab.xw);
    assert(ab.xw * c.xw == (a.s * b.xw) * c.xw + (a.xw * b.s) * c.xw + (a.xy * b.yw) * c.xw - (a.xyzw * b.yz) * c.xw + (a.xz * b.zw) * c.xw - (a.yw * b.xy) * c.xw - (a.yz * b.xyzw) * c.xw - (a.zw * b.xz) * c.xw);
    lemma_dist_xy_right(c.xy, a.s, b.xy, a.xw, b.yw, a.xy, b.s, a.xyzw, b.zw, a.xz, b.yz, a.yw, b.xw, a.yz, b.xz, a.zw, b.xyzw, ab.xy);
    assert(ab.xy * c.xy == (a.s * b.xy) * c.xy - (a.xw * b.yw) * c.xy + (a.xy * b.s) * c.xy - (a.xyzw * b.zw) * c.xy - (a.xz * b.yz) * c.xy + (a.yw * b.xw) * c.xy + (a.yz * b.xz) * c.xy - (a.zw * b.xyzw) * c.xy);
    lemma_dist_xyzw_right(c.xyzw, a.s, b.xyzw, a.xw, b.yz, a.xy, b.zw, a.xyzw, b.s, a.xz, b.yw, a.yw, b.xz, a.yz, b.xw, a.zw, b.xy, ab.xyzw);
    assert(ab.xyzw * c.xyzw == (a.s * b.xyzw) * c.xyzw + (a.xw * b.yz) * c.xyzw + (a.xy * b.zw) * c.xyzw + (a.xyzw * b.s) * c.xyzw - (a.xz * b.yw) * c.xyzw - (a.yw * b.xz) * c.xyzw + (a.yz * b.xw) * c.xyzw + (a.zw * b.xy) * c.xyzw);
    lemma_dist_xz_right(c.xz, a.s, b.xz, a.xw, b.zw, a.xy, b.yz, a.xyzw, b.yw, a.xz, b.s, a.yw, b.xyzw, a.yz, b.xy, a.zw, b.xw, ab.xz);
    assert(ab.xz * c.xz == (a.s * b.xz) * c.xz - (a.xw * b.zw) * c.xz + (a.xy * b.yz) * c.xz + (a.xyzw * b.yw) * c.xz + (a.xz * b.s) * c.xz + (a.yw * b.xyzw) * c.xz - (a.yz * b.xy) * c.xz + (a.zw * b.xw) * c.xz);
    lemma_dist_yw_right(c.yw, a.s, b.yw, a.xw, b.xy, a.xy, b.xw, a.xyzw, b.xz, a.xz, b.xyzw, a.yw, b.s, a.yz, b.zw, a.zw, b.yz, ab.yw);
    assert(ab.yw * c.yw == (a.s * b.yw) * c.yw + (a.xw * b.xy) * c.yw - (a.xy * b.xw) * c.yw + (a.xyzw * b.xz) * c.yw + (a.xz * b.xyzw) * c.yw + (a.yw * b.s) * c.yw + (a.yz * b.zw) * c.yw - (a.zw * b.yz) * c.yw);
    lemma_dist_yz_right(c.yz, a.s, b.yz, a.xw, b.xyzw, a.xy, b.xz, a.xyzw, b.xw, a.xz, b.xy, a.yw, b.zw, a.yz, b.s, a.zw, b.yw, ab.yz);
    assert(ab.yz * c.yz == (a.s * b.yz) * c.yz - (a.xw * b.xyzw) * c.yz - (a.xy * b.xz) * c.yz - (a.xyzw * b.xw) * c.yz + (a.xz * b.xy) * c.yz - (a.yw * b.zw) * c.yz + (a.yz * b.s) * c.yz + (a.zw * b.yw) * c.yz);
    lemma_dist_zw_right(c.zw, a.s, b.zw, a.xw, b.xz, a.xy, b.xyzw, a.xyzw, b.xy, a.xz, b.xw, a.yw, b.yz, a.yz, b.yw, a.zw, b.s, ab.zw);
    assert(ab.zw * c.zw == (a.s * b.zw) * c.zw + (a.xw * b.xz) * c.zw - (a.xy * b.xyzw) * c.zw - (a.xyzw * b.xy) * c.zw - (a.xz * b.xw) * c.zw + (a.yw * b.yz) * c.zw - (a.yz * b.yw) * c.zw + (a.zw * b.s) * c.zw);
    lemma_mul_comm(a.s, bc.s);
    lemma_dist_s_right(a.s, b.s, c.s, b.xw, c.xw, b.xy, c.xy, b.xyzw, c.xyzw, b.xz, c.xz, b.yw, c.yw, b.yz, c.yz, b.zw, c.zw, bc.s);
    lemma_rot3(a.s, b.s, c.s);
    lemma_rot3(a.s, b.xw, c.xw);
    lemma_rot3(a.s, b.xy, c.xy);
    lemma_rot3(a.s, b.xyzw, c.xyzw);
    lemma_rot3(a.s, b.xz, c.xz);
    lemma_rot3(a.s, b.yw, c.yw);
    lemma_rot3(a.s, b.yz, c.yz);
    lemma_rot3(a.s, b.zw, c.zw);
    assert(a.s * bc.s == (a.s * b.s) * c.s - (a.s * b.xw) * c.xw - (a.s * b.xy) * c.xy + (a.s * b.xyzw) * c.xyzw - (a.s * b.xz) * c.xz - (a.s * b.yw) * c.yw - (a.s * b.yz) * c.yz - (a.s * b.zw) * c.zw);
    lemma_mul_comm(a.xw, bc.xw);
    lemma_dist_xw_right(a.xw, b.s, c.xw, b.xw, c.s, b.xy, c.yw, b.xyzw, c.yz, b.xz, c.zw, b.yw, c.xy, b.yz, c.xyzw, b.zw, c.xz, bc.xw);
    lemma_rot3(a.xw, b.s, c.xw);
    lemma_rot3(a.xw, b.xw, c.s);
    lemma_rot3(a.xw, b.xy, c.yw);
    lemma_rot3(a.xw, b.xyzw, c.yz);
    lemma_rot3(a.xw, b.xz, c.zw);
    lemma_rot3(a.xw, b.yw, c.xy);
    lemma_rot3(a.xw, b.yz, c.xyzw);
    lemma_rot3(a.xw, b.zw, c.xz);
    assert(a.xw * bc.xw == (a.xw * b.s) * c.xw + (a.xw * b.xw) * c.s + (a.xw * b.xy) * c.yw - (a.xw * b.xyzw) * c.yz + (a.xw * b.xz) * c.zw - (a.xw * b.yw) * c.xy - (a.xw * b.yz) * c.xyzw - (a.xw * b.zw) * c.xz);
    lemma_mul_comm(a.xy, bc.xy);
    lemma_dist_xy_right(a.xy, b.s, c.xy, b.xw, c.yw, b.xy, c.s, b.xyzw, c.zw, b.xz, c.yz, b.yw, c.xw, b.yz, c.xz, b.zw, c.xyzw, bc.xy);
    lemma_rot3(a.xy, b.s, c.xy);
    lemma_rot3(a.xy, b.xw, c.yw);
    lemma_rot3(a.xy, b.xy, c.s);
    lemma_rot3(a.xy, b.xyzw, c.zw);
    lemma_rot3(a.xy, b.xz, c.yz);
    lemma_rot3(a.xy, b.yw, c.xw);
    lemma_rot3(a.xy, b.yz, c.xz);
    lemma_rot3(a.xy, b.zw, c.xyzw);
    assert(a.xy * bc.xy == (a.xy * b.s) * c.xy - (a.xy * b.xw) * c.yw + (a.xy * b.xy) * c.s - (a.xy * b.xyzw) * c.zw - (a.xy * b.xz) * c.yz + (a.xy * b.yw) * c.xw + (a.xy * b.yz) * c.xz - (a.xy * b.zw) * c.xyzw);
    lemma_mul_comm(a.xyzw, bc.xyzw);
    lemma_dist_xyzw_right(a.xyzw, b.s, c.xyzw, b.xw, c.yz, b.xy, c.zw, b.xyzw, c.s, b.xz, c.yw, b.yw, c.xz, b.yz, c.xw, b.zw, c.xy, bc.xyzw);
    lemma_rot3(a.xyzw, b.s, c.xyzw);
    lemma_rot3(a.xyzw, b.xw, c.yz);
    lemma_rot3(a.xyzw, b.xy, c.zw);
    lemma_rot3(a.xyzw, b.xyzw, c.s);
    lemma_rot3(a.xyzw, b.xz, c.yw);
    lemma_rot3(a.xyzw, b.yw, c.xz);
    lemma_rot3(a.xyzw, b.yz, c.xw);
    lemma_rot3(a.xyzw, b.zw, c.xy);
    assert(a.xyzw * bc.xyzw == (a.xyzw * b.s) * c.xyzw + (a.xyzw * b.xw) * c.yz + (a.xyzw * b.xy) * c.zw + (a.xyzw * b.xyzw) * c.s - (a.xyzw * b.xz) * c.yw - (a.xyzw * b.yw) * c.xz + (a.xyzw * b.yz) * c.xw + (a.xyzw * b.zw) * c.xy);
    lemma_mul_comm(a.xz, bc.xz);
    lemma_dist_xz_right(a.xz, b.s, c.xz, b.xw, c.zw, b.xy, c.yz, b.xyzw, c.yw, b.xz, c.s, b.yw, c.xyzw, b.yz, c.xy, b.zw, c.xw, bc.xz);
    lemma_rot3(a.xz, b.s, c.xz);
    lemma_rot3(a.xz, b.xw, c.zw);
    lemma_rot3(a.xz, b.xy, c.yz);
    lemma_rot3(a.xz, b.xyzw, c.yw);
    lemma_rot3(a.xz, b.xz, c.s);
    lemma_rot3(a.xz, b.yw, c.xyzw);
    lemma_rot3(a.xz, b.yz, c.xy);
    lemma_rot3(a.xz, b.zw, c.xw);
    assert(a.xz * bc.xz == (a.xz * b.s) * c.xz - (a.xz * b.xw) * c.zw + (a.xz * b.xy) * c.yz + (a.xz * b.xyzw) * c.yw + (a.xz * b.xz) * c.s + (a.xz * b.yw) * c.xyzw - (a.xz * b.yz) * c.xy + (a.xz * b.zw) * c.xw);
    lemma_mul_comm(a.yw, bc.yw);
    lemma_dist_yw_right(a.yw, b.s, c.yw, b.xw, c.xy, b.xy, c.xw, b.xyzw, c.xz, b.xz, c.xyzw, b.yw, c.s, b.yz, c.zw, b.zw, c.yz, bc.yw);
    lemma_rot3(a.yw, b.s, c.yw);
    lemma_rot3(a.yw, b.xw, c.xy);
    lemma_rot3(a.yw, b.xy, c.xw);
    lemma_rot3(a.yw, b.xyzw, c.xz);
    lemma_rot3(a.yw, b.xz, c.xyzw);
    lemma_rot3(a.yw, b.yw, c.s);
    lemma_rot3(a.yw, b.yz, c.zw);
    lemma_rot3(a.yw, b.zw, c.yz);
    assert(a.yw * bc.yw == (a.yw * b.s) * c.yw + (a.yw * b.xw) * c.xy - (a.yw * b.xy) * c.xw + (a.yw * b.xyzw) * c.xz + (a.yw * b.xz) * c.xyzw + (a.yw * b.yw) * c.s + (a.yw * b.yz) * c.zw - (a.yw * b.zw) * c.yz);
    lemma_mul_comm(a.yz, bc.yz);
    lemma_dist_yz_right(a.yz, b.s, c.yz, b.xw, c.xyzw, b.xy, c.xz, b.xyzw, c.xw, b.xz, c.xy, b.yw, c.zw, b.yz, c.s, b.zw, c.yw, bc.yz);
    lemma_rot3(a.yz, b.s, c.yz);
    lemma_rot3(a.yz, b.xw, c.xyzw);
    lemma_rot3(a.yz, b.xy, c.xz);
    lemma_rot3(a.yz, b.xyzw, c.xw);
    lemma_rot3(a.yz, b.xz, c.xy);
    lemma_rot3(a.yz, b.yw, c.zw);
    lemma_rot3(a.yz, b.yz, c.s);
    lemma_rot3(a.yz, b.zw, c.yw);
    assert(a.yz * bc.yz == (a.yz * b.s) * c.yz - (a.yz * b.xw) * c.xyzw - (a.yz * b.xy) * c.xz - (a.yz * b.xyzw) * c.xw + (a.yz * b.xz) * c.xy - (a.yz * b.yw) * c.zw + (a.yz * b.yz) * c.s + (a.yz * b.zw) * c.yw);
    lemma_mul_comm(a.zw, bc.zw);
    lemma_dist_zw_right(a.zw, b.s, c.zw, b.xw, c.xz, b.xy, c.xyzw, b.xyzw, c.xy, b.xz, c.xw, b.yw, c.yz, b.yz, c.yw, b.zw, c.s, bc.zw);
    lemma_rot3(a.zw, b.s, c.zw);
    lemma_rot3(a.zw, b.xw, c.xz);
    lemma_rot3(a.zw, b.xy, c.xyzw);
    lemma_rot3(a.zw, b.xyzw, c.xy);
    lemma_rot3(a.zw, b.xz, c.xw);
    lemma_rot3(a.zw, b.yw, c.yz);
    lemma_rot3(a.zw, b.yz, c.yw);
    lemma_rot3(a.zw, b.zw, c.s);
    assert(a.zw * bc.zw == (a.zw * b.s) * c.zw + (a.zw * b.xw) * c.xz - (a.zw * b.xy) * c.xyzw - (a.zw * b.xyzw) * c.xy - (a.zw * b.xz) * c.xw + (a.zw * b.yw) * c.yz - (a.zw * b.yz) * c.yw + (a.zw * b.zw) * c.s);
    assert(rv_mul(ab, c).s == rv_mul(a, bc).s);
}

proof fn lemma_assoc_xy(a: RotorV, b: RotorV, c: RotorV)
    ensures
        rv_mul(rv_mul(a, b), c).xy == rv_mul(a, rv_mul(b, c)).xy,
{
    let ab = rv_mul(a, b);
    let bc = rv_mul(b, c);
    lemma_dist_s_right(c.xy, a.s, b.s, a.xw, b.xw, a.xy, b.xy, a.xyzw, b.xyzw, a.xz, b.xz, a.yw, b.yw, a.yz, b.yz, a.zw, b.zw, ab.s);
    assert(ab.s * c.xy == (a.s * b.s) * c.xy - (a.xw * b.xw) * c.xy - (a.xy * b.xy) * c.xy + (a.xyzw * b.xyzw) * c.xy - (a.xz * b.xz) * c.xy - (a.yw * b.yw) * c.xy - (a.yz * b.yz) * c.xy - (a.zw * b.zw) * c.xy);
    lemma_dist_xw_right(c.yw, a.s, b.xw, a.xw, b.s, a.xy, b.yw, a.xyzw, b.yz, a.xz, b.zw, a.yw, b.xy, a.yz, b.xyzw, a.zw, b.xz, ab.xw);
    assert(ab.xw * c.yw == (a.s * b.xw) * c.yw + (a.xw * b.s) * c.yw + (a.xy * b.yw) * c.yw - (a.xyzw * b.yz) * c.yw + (a.xz * b.zw) * c.yw - (a.yw * b.xy) * c.yw - (a.yz * b.xyzw) * c.yw - (a.zw * b.xz) * c.yw);
    lemma_dist_xy_right(c.s, a.s, b.xy, a.xw, b.yw, a.xy, b.s, a.xyzw, b.zw, a.xz, b.yz, a.yw, b.xw, a.yz, b.xz, a.zw, b.xyzw, ab.xy);
    assert(ab.xy * c.s == (a.s * b.xy) * c.s - (a.xw * b.yw) * c.s + (a.xy * b.s) * c.s - (a.xyzw * b.zw) * c.s - (a.xz * b.yz) * c.s + (a.yw * b.xw) * c.s + (a.yz * b.xz) * c.s - (a.zw * b.xyzw) * c.s);
    lemma_dist_xyzw_right(c.zw, a.s, b.xyzw, a.xw, b.yz, a.xy, b.zw, a.xyzw, b.s, a.xz, b.yw, a.yw, b.xz, a.yz, b.xw, a.zw, b.xy, ab.xyzw);
    assert(ab.xyzw * c.zw == (a.s * b.xyzw) * c.zw + (a.xw * b.yz) * c.zw + (a.xy * b.zw) * c.zw + (a.xyzw * b.s) * c.zw - (a.xz * b.yw) * c.zw - (a.yw * b.xz) * c.zw + (a.yz * b.xw) * c.zw + (a.zw * b.xy) * c.zw);
    lemma_dist_xz_right(c.yz, a.s, b.xz, a.xw, b.zw, a.xy, b.yz, a.xyzw, b.yw, a.xz, b.s, a.yw, b.xyzw, a.yz, b.xy, a.zw, b.xw, ab.xz);
    assert(ab.xz * c.yz == (a.s * b.xz) * c.yz - (a.xw * b.zw) * c.yz + (a.xy * b.yz) * c.yz + (a.xyzw * b.yw) * c.yz + (a.xz * b.s) * c.yz + (a.yw * b.xyzw) * c.yz - (a.yz * b.xy) * c.yz + (a.zw * b.xw) * c.yz);
    lemma_dist_yw_right(c.xw, a.s, b.yw, a.xw, b.xy, a.xy, b.xw, a.xyzw, b.xz, a.xz, b.xyzw, a.yw, b.s, a.yz, b.zw, a.zw, b.yz, ab.yw);
    assert(ab.yw * c.xw == (a.s * b.yw) * c.xw + (a.xw * b.xy) * c.xw - (a.xy * b.xw) * c.xw + (a.xyzw * b.xz) * c.xw + (a.xz * b.xyzw) * c.xw + (a.yw * b.s) * c.xw + (a.yz * b.zw) * c.xw - (a.zw * b.yz) * c.xw);
    lemma_dist_yz_right(c.xz, a.s, b.yz, a.xw, b.xyzw, a.xy, b.xz, a.xyzw, b.xw, a.xz, b.xy, a.yw, b.zw, a.yz, b.s, a.zw, b.yw, ab.yz);
    assert(ab.yz * c.xz == (a.s * b.yz) * c.xz - (a.xw * b.xyzw) * c.xz - (a.xy * b.xz) * c.xz - (a.xyzw * b.xw) * c.xz + (a.xz * b.xy) * c.xz - (a.yw * b.zw) * c.xz + (a.yz * b.s) * c.xz + (a.zw * b.yw) * c.xz);
    lemma_dist_zw_right(c.xyzw, a.s, b.zw, a.xw, b.xz, a.xy, b.xyzw, a.xyzw, b.xy, a.xz, b.xw, a.yw, b.yz, a.yz, b.yw, a.zw, b.s, ab.zw);
    assert(ab.zw * c.xyzw == (a.s * b.zw) * c.xyzw + (a.xw * b.xz) * c.xyzw - (a.xy * b.xyzw) * c.xyzw - (a.xyzw * b.xy) * c.xyzw - (a.xz * b.xw) * c.xyzw + (a.yw * b.yz) * c.xyzw - (a.yz * b.yw) * c.xyzw + (a.zw * b.s) * c.xyzw);
    lemma_mul_comm(a.s, bc.xy);
    lemma_dist_xy_right(a.s, b.s, c.xy, b.xw, c.yw, b.xy, c.s, b.xyzw, c.zw, b.xz, c.yz, b.yw, c.xw, b.yz, c.xz, b.zw, c.xyzw, bc.xy);
    lemma_rot3(a.s, b.s, c.xy);
    lemma_rot3(a.s, b.xw, c.yw);
    lemma_rot3(a.s, b.xy, c.s);
    lemma_rot3(a.s, b.xyzw, c.zw);
    lemma_rot3(a.s, b.xz, c.yz);
    lemma_rot3(a.s, b.yw, c.xw);
    lemma_rot3(a.s, b.yz, c.xz);
    lemma_rot3(a.s, b.zw, c.xyzw);
    assert(a.s * bc.xy == (a.s * b.s) * c.xy - (a.s * b.xw) * c.yw + (a.s * b.xy) * c.s - (a.s * b.xyzw) * c.zw - (a.s * b.xz) * c.yz + (a.s * b.yw) * c.xw + (a.s * b.yz) * c.xz - (a.s * b.zw) * c.xyzw);
    lemma_mul_comm(a.xw, bc.yw);
    lemma_dist_yw_right(a.xw, b.s, c.yw, b.xw, c.xy, b.xy, c.xw, b.xyzw, c.xz, b.xz, c.xyzw, b.yw, c.s, b.yz, c.zw, b.zw, c.yz, bc.yw);
    lemma_rot3(a.xw, b.s, c.yw);
    lemma_rot3(a.xw, b.xw, c.xy);
    lemma_rot3(a.xw, b.xy, c.xw);
    lemma_rot3(a.xw, b.xyzw, c.xz);
    lemma_rot3(a.xw, b.xz, c.xyzw);
    lemma_rot3(a.xw, b.yw, c.s);
    lemma_rot3(a.xw, b.yz, c.zw);
    lemma_rot3(a.xw, b.zw, c.yz);
    assert(a.xw * bc.yw == (a.xw * b.s) * c.yw + (a.xw * b.xw) * c.xy - (a.xw * b.xy) * c.xw + (a.xw * b.xyzw) * c.xz + (a.xw * b.xz) * c.xyzw + (a.xw * b.yw) * c.s + (a.xw * b.yz) * c.zw - (a.xw * b.zw) * c.yz);
    lemma_mul_comm(a.xy, bc.s);
    lemma_dist_s_right(a.xy, b.s, c.s, b.xw, c.xw, b.xy, c.xy, b.xyzw, c.xyzw, b.xz, c.xz, b.yw, c.yw, b.yz, c.yz, b.zw, c.zw, bc.s);
    lemma_rot3(a.xy, b.s, c.s);
    lemma_rot3(a.xy, b.xw, c.xw);
    lemma_rot3(a.xy, b.xy, c.xy);
    lemma_rot3(a.xy, b.xyzw, c.xyzw);
    lemma_rot3(a.xy, b.xz, c.xz);
    lemma_rot3(a.xy, b.yw, c.yw);
    lemma_rot3(a.xy, b.yz, c.yz);
    lemma_rot3(a.xy, b.zw, c.zw);
    assert(a.xy * bc.s == (a.xy * b.s) * c.s - (a.xy * b.xw) * c.xw - (a.xy * b.xy) * c.xy + (a.xy * b.xyzw) * c.xyzw - (a.xy * b.xz) * c.xz - (a.xy * b.yw) * c.yw - (a.xy * b.yz) * c.yz - (a.xy * b.zw) * c.zw);
    lemma_mul_comm(a.xyzw, bc.zw);
    lemma_dist_zw_right(a.xyzw, b.s, c.zw, b.xw, c.xz, b.xy, c.xyzw, b.xyzw, c.xy, b.xz, c.xw, b.yw, c.yz, b.yz, c.yw, b.zw, c.s, bc.zw);
    lemma_rot3(a.xyzw, b.s, c.zw);
    lemma_rot3(a.xyzw, b.xw, c.xz);
    lemma_rot3(a.xyzw, b.xy, c.xyzw);
    lemma_rot3(a.xyzw, b.xyzw, c.xy);
    lemma_rot3(a.xyzw, b.xz, c.xw);
    lemma_rot3(a.xyzw, b.yw, c.yz);
    lemma_rot3(a.xyzw, b.yz, c.yw);
    lemma_rot3(a.xyzw, b.zw, c.s);
    assert(a.xyzw * bc.zw == (a.xyzw * b.s) * c.zw + (a.xyzw * b.xw) * c.xz - (a.xyzw * b.xy) * c.xyzw - (a.xyzw * b.xyzw) * c.xy - (a.xyzw * b.xz) * c.xw + (a.xyzw * b.yw) * c.yz - (a.xyzw * b.yz) * c.yw + (a.xyzw * b.zw) * c.s);
    lemma_mul_comm(a.xz, bc.yz);
    lemma_dist_yz_right(a.xz, b.s, c.yz, b.xw, c.xyzw, b.xy, c.xz, b.xyzw, c.xw, b.xz, c.xy, b.yw, c.zw, b.yz, c.s, b.zw, c.yw, bc.yz);
    lemma_rot3(a.xz, b.s, c.yz);
    lemma_rot3(a.xz, b.xw, c.xyzw);
    lemma_rot3(a.xz, b.xy, c.xz);
    lemma_rot3(a.xz, b.xyzw, c.xw);
    lemma_rot3(a.xz, b.xz, c.xy);
    lemma_rot3(a.xz, b.yw, c.zw);
    lemma_rot3(a.xz, b.yz, c.s);
    lemma_rot3(a.xz, b.zw, c.yw);
    assert(a.xz * bc.yz == (a.xz * b.s) * c.yz - (a.xz * b.xw) * c.xyzw - (a.xz * b.xy) * c.xz - (a.xz * b.xyzw) * c.xw + (a.xz * b.xz) * c.xy - (a.xz * b.yw) * c.zw + (a.xz * b.yz) * c.s + (a.xz * b.zw) * c.yw);
    lemma_mul_comm(a.yw, bc.xw);
    lemma_dist_xw_right(a.yw, b.s, c.xw, b.xw, c.s, b.xy, c.yw, b.xyzw, c.yz, b.xz, c.zw, b.yw, c.xy, b.yz, c.xyzw, b.zw, c.xz, bc.xw);
    lemma_rot3(a.yw, b.s, c.xw);
    lemma_rot3(a.yw, b.xw, c.s);
    lemma_rot3(a.yw, b.xy, c.yw);
    lemma_rot3(a.yw, b.xyzw, c.yz);
    lemma_rot3(a.yw, b.xz, c.zw);
    lemma_rot3(a.yw, b.yw, c.xy);
    lemma_rot3(a.yw, b.yz, c.xyzw);
    lemma_rot3(a.yw, b.zw, c.xz);
    assert(a.yw * bc.xw == (a.yw * b.s) * c.xw + (a.yw * b.xw) * c.s + (a.yw * b.xy) * c.yw - (a.yw * b.xyzw) * c.yz + (a.yw * b.xz) * c.zw - (a.yw * b.yw) * c.xy - (a.yw * b.yz) * c.xyzw - (a.yw * b.zw) * c.xz);
    lemma_mul_comm(a.yz, bc.xz);
    lemma_dist_xz_right(a.yz, b.s, c.xz, b.xw, c.zw, b.xy, c.yz, b.xyzw, c.yw, b.xz, c.s, b.yw, c.xyzw, b.yz, c.xy, b.zw, c.xw, bc.xz);
    lemma_rot3(a.yz, b.s, c.xz);
    lemma_rot3(a.yz, b.xw, c.zw);
    lemma_rot3(a.yz, b.xy, c.yz);
    lemma_rot3(a.yz, b.xyzw, c.yw);
    lemma_rot3(a.yz, b.xz, c.s);
    lemma_rot3(a.yz, b.yw, c.xyzw);
    lemma_rot3(a.yz, b.yz, c.xy);
    lemma_rot3(a.yz, b.zw, c.xw);
    assert(a.yz * bc.xz == (a.yz * b.s) * c.xz - (a.yz * b.xw) * c.zw + (a.yz * b.xy) * c.yz + (a.yz * b.xyzw) * c.yw + (a.yz * b.xz) * c.s + (a.yz * b.yw) * c.xyzw - (a.yz * b.yz) * c.xy + (a.yz * b.zw) * c.xw);
    lemma_mul_comm(a.zw, bc.xyzw);
    lemma_dist_xyzw_right(a.zw, b.s, c.xyzw, b.xw, c.yz, b.xy, c.zw, b.xyzw, c.s, b.xz, c.yw, b.yw, c.xz, b.yz, c.xw, b.zw, c.xy, bc.xyzw);
    lemma_rot3(a.zw, b.s, c.xyzw);
    lemma_rot3(a.zw, b.xw, c.yz);
    lemma_rot3(a.zw, b.xy, c.zw);
    lemma_rot3(a.zw, b.xyzw, c.s);
    lemma_rot3(a.zw, b.xz, c.yw);
    lemma_rot3(a.zw, b.yw, c.xz);
    lemma_rot3(a.zw, b.yz, c.xw);
    lemma_rot3(a.zw, b.zw, c.xy);
    assert(a.zw * bc.xyzw == (a.zw * b.s) * c.xyzw + (a.zw * b.xw) * c.yz + (a.zw * b.xy) * c.zw + (a.zw * b.xyzw) * c.s - (a.zw * b.xz) * c.yw - (a.zw * b.yw) * c.xz + (a.zw * b.yz) * c.xw + (a.zw * b.zw) * c.xy);
    assert(rv_mul(ab, c).xy == rv_mul(a, bc).xy);
}

proof fn lemma_assoc_xz(a: RotorV, b: RotorV, c: RotorV)
    ensures
        rv_mul(rv_mul(a, b), c).xz == rv_mul(a, rv_mul(b, c)).xz,
{
    let ab = rv_mul(a, b);
    let bc = rv_mul(b, c);
    lemma_dist_s_right(c.xz, a.s, b.s, a.xw, b.xw, a.xy, b.xy, a.xyzw, b.xyzw, a.xz, b.xz, a.yw, b.yw, a.yz, b.yz, a.zw, b.zw, ab.s);
    assert(ab.s * c.xz == (a.s * b.s) * c.xz - (a.xw * b.xw) * c.xz - (a.xy * b.xy) * c.xz + (a.xyzw * b.xyzw) * c.xz - (a.xz * b.xz) * c.xz - (a.yw * b.yw) * c.xz - (a.yz * b.yz) * c.xz - (a.zw * b.zw) * c.xz);
    lemma_dist_xw_right(c.zw, a.s, b.xw, a.xw, b.s, a.xy, b.yw, a.xyzw, b.yz, a.xz, b.zw, a.yw, b.xy, a.yz, b.xyzw, a.zw, b.xz, ab.xw);
    assert(ab.xw * c.zw == (a.s * b.xw) * c.zw + (a.xw * b.s) * c.zw + (a.xy * b.yw) * c.zw - (a.xyzw * b.yz) * c.zw + (a.xz * b.zw) * c.zw - (a.yw * b.xy) * c.zw - (a.yz * b.xyzw) * c.zw - (a.zw * b.xz) * c.zw);
    lemma_dist_xy_right(c.yz, a.s, b.xy, a.xw, b.yw, a.xy, b.s, a.xyzw, b.zw, a.xz, b.yz, a.yw, b.xw, a.yz, b.xz, a.zw, b.xyzw, ab.xy);
    assert(ab.xy * c.yz == (a.s * b.xy) * c.yz - (a.xw * b.yw) * c.yz + (a.xy * b.s) * c.yz - (a.xyzw * b.zw) * c.yz - (a.xz * b.yz) * c.yz + (a.yw * b.xw) * c.yz + (a.yz * b.xz) * c.yz - (a.zw * b.xyzw) * c.yz);
    lemma_dist_xyzw_right(c.yw, a.s, b.xyzw, a.xw, b.yz, a.xy, b.zw, a.xyzw, b.s, a.xz, b.yw, a.yw, b.xz, a.yz, b.xw, a.zw, b.xy, ab.xyzw);
    assert(ab.xyzw * c.yw == (a.s * b.xyzw) * c.yw + (a.xw * b.yz) * c.yw + (a.xy * b.zw) * c.yw + (a.xyzw * b.s) * c.yw - (a.xz * b.yw) * c.yw - (a.yw * b.xz) * c.yw + (a.yz * b.xw) * c.yw + (a.zw * b.xy) * c.yw);
    lemma_dist_xz_right(c.s, a.s, b.xz, a.xw, b.zw, a.xy, b.yz, a.xyzw, b.yw, a.xz, b.s, a.yw, b.xyzw, a.yz, b.xy, a.zw, b.xw, ab.xz);
    assert(ab.xz * c.s == (a.s * b.xz) * c.s - (a.xw * b.zw) * c.s + (a.xy * b.yz) * c.s + (a.xyzw * b.yw) * c.s + (a.xz * b.s) * c.s + (a.yw * b.xyzw) * c.s - (a.yz * b.xy) * c.s + (a.zw * b.xw) * c.s);
    lemma_dist_yw_right(c.xyzw, a.s, b.yw, a.xw, b.xy, a.xy, b.xw, a.xyzw, b.xz, a.xz, b.xyzw, a.yw, b.s, a.yz, b.zw, a.zw, b.yz, ab.yw);
    assert(ab.yw * c.xyzw == (a.s * b.yw) * c.xyzw + (a.xw * b.xy) * c.xyzw - (a.xy * b.xw) * c.xyzw + (a.xyzw * b.xz) * c.xyzw + (a.xz * b.xyzw) * c.xyzw + (a.yw * b.s) * c.xyzw + (a.yz * b.zw) * c.xyzw - (a.zw * b.yz) * c.xyzw);
    lemma_dist_yz_right(c.xy, a.s, b.yz, a.xw, b.xyzw, a.xy, b.xz, a.xyzw, b.xw, a.xz, b.xy, a.yw, b.zw, a.yz, b.s, a.zw, b.yw, ab.yz);
    assert(ab.yz * c.xy == (a.s * b.yz) * c.xy - (a.xw * b.xyzw) * c.xy - (a.xy * b.xz) * c.xy - (a.xyzw * b.xw) * c.xy + (a.xz * b.xy) * c.xy - (a.yw * b.zw) * c.xy + (a.yz * b.s) * c.xy + (a.zw * b.yw) * c.xy);
    lemma_dist_zw_right(c.xw, a.s, b.zw, a.xw, b.xz, a.xy, b.xyzw, a.xyzw, b.xy, a.xz, b.xw, a.yw, b.yz, a.yz, b.yw, a.zw, b.s, ab.zw);
    assert(ab.zw * c.xw == (a.s * b.zw) * c.xw + (a.xw * b.xz) * c.xw - (a.xy * b.xyzw) * c.xw - (a.xyzw * b.xy) * c.xw - (a.xz * b.xw) * c.xw + (a.yw * b.yz) * c.xw - (a.yz * b.yw) * c.xw + (a.zw * b.s) * c.xw);
    lemma_mul_comm(a.s, bc.xz);
    lemma_dist_xz_right(a.s, b.s, c.xz, b.xw, c.zw, b.xy, c.yz, b.xyzw, c.yw, b.xz, c.s, b.yw, c.xyzw, b.yz, c.xy, b.zw, c.xw, bc.xz);
    lemma_rot3(a.s, b.s, c.xz);
    lemma_rot3(a.s, b.xw, c.zw);
    lemma_rot3(a.s, b.xy, c.yz);
    lemma_rot3(a.s, b.xyzw, c.yw);
    lemma_rot3(a.s, b.xz, c.s);
    lemma_rot3(a.s, b.yw, c.xyzw);
    lemma_rot3(a.s, b.yz, c.xy);
    lemma_rot3(a.s, b.zw, c.xw);
    assert(a.s * bc.xz == (a.s * b.s) * c.xz - (a.s * b.xw) * c.zw + (a.s * b.xy) * c.yz + (a.s * b.xyzw) * c.yw + (a.s * b.xz) * c.s + (a.s * b.yw) * c.xyzw - (a.s * b.yz) * c.xy + (a.s * b.zw) * c.xw);
    lemma_mul_comm(a.xw, bc.zw);
    lemma_dist_zw_right(a.xw, b.s, c.zw, b.xw, c.xz, b.xy, c.xyzw, b.xyzw, c.xy, b.xz, c.xw, b.yw, c.yz, b.yz, c.yw, b.zw, c.s, bc.zw);
    lemma_rot3(a.xw, b.s, c.zw);
    lemma_rot3(a.xw, b.xw, c.xz);
    lemma_rot3(a.xw, b.xy, c.xyzw);
    lemma_rot3(a.xw, b.xyzw, c.xy);
    lemma_rot3(a.xw, b.xz, c.xw);
    lemma_rot3(a.xw, b.yw, c.yz);
    lemma_rot3(a.xw, b.yz, c.yw);
    lemma_rot3(a.xw, b.zw, c.s);
    assert(a.xw * bc.zw == (a.xw * b.s) * c.zw + (a.xw * b.xw) * c.xz - (a.xw * b.xy) * c.xyzw - (a.xw * b.xyzw) * c.xy - (a.xw * b.xz) * c.xw + (a.xw * b.yw) * c.yz - (a.xw * b.yz) * c.yw + (a.xw * b.zw) * c.s);
    lemma_mul_comm(a.xy, bc.yz);
    lemma_dist_yz_right(a.xy, b.s, c.yz, b.xw, c.xyzw, b.xy, c.xz, b.xyzw, c.xw, b.xz, c.xy, b.yw, c.zw, b.yz, c.s, b.zw, c.yw, bc.yz);
    lemma_rot3(a.xy, b.s, c.yz);
    lemma_rot3(a.xy, b.xw, c.xyzw);
    lemma_rot3(a.xy, b.xy, c.xz);
    lemma_rot3(a.xy, b.xyzw, c.xw);
    lemma_rot3(a.xy, b.xz, c.xy);
    lemma_rot3(a.xy, b.yw, c.zw);
    lemma_rot3(a.xy, b.yz, c.s);
    lemma_rot3(a.xy, b.zw, c.yw);
    assert(a.xy * bc.yz == (a.xy * b.s) * c.yz - (a.xy * b.xw) * c.xyzw - (a.xy * b.xy) * c.xz - (a.xy * b.xyzw) * c.xw + (a.xy * b.xz) * c.xy - (a.xy * b.yw) * c.zw + (a.xy * b.yz) * c.s + (a.xy * b.zw) * c.yw);
    lemma_mul_comm(a.xyzw, bc.yw);
    lemma_dist_yw_right(a.xyzw, b.s, c.yw, b.xw, c.xy, b.xy, c.xw, b.xyzw, c.xz, b.xz, c.xyzw, b.yw, c.s, b.yz, c.zw, b.zw, c.yz, bc.yw);
    lemma_rot3(a.xyzw, b.s, c.yw);
    lemma_rot3(a.xyzw, b.xw, c.xy);
    lemma_rot3(a.xyzw, b.xy, c.xw);
    lemma_rot3(a.xyzw, b.xyzw, c.xz);
    lemma_rot3(a.xyzw, b.xz, c.xyzw);
    lemma_rot3(a.xyzw, b.yw, c.s);
    lemma_rot3(a.xyzw, b.yz, c.zw);
    lemma_rot3(a.xyzw, b.zw, c.yz);
    assert(a.xyzw * bc.yw == (a.xyzw * b.s) * c.yw + (a.xyzw * b.xw) * c.xy - (a.xyzw * b.xy) * c.xw + (a.xyzw * b.xyzw) * c.xz + (a.xyzw * b.xz) * c.xyzw + (a.xyzw * b.yw) * c.s + (a.xyzw * b.yz) * c.zw - (a.xyzw * b.zw) * c.yz);
    lemma_mul_comm(a.xz, bc.s);
    lemma_dist_s_right(a.xz, b.s, c.s, b.xw, c.xw, b.xy, c.xy, b.xyzw, c.xyzw, b.xz, c.xz, b.yw, c.yw, b.yz, c.yz, b.zw, c.zw, bc.s);
    lemma_rot3(a.xz, b.s, c.s);
    lemma_rot3(a.xz, b.xw, c.xw);
    lemma_rot3(a.xz, b.xy, c.xy);
    lemma_rot3(a.xz, b.xyzw, c.xyzw);
    lemma_rot3(a.xz, b.xz, c.xz);
    lemma_rot3(a.xz, b.yw, c.yw);
    lemma_rot3(a.xz, b.yz, c.yz);
    lemma_rot3(a.xz, b.zw, c.zw);
    assert(a.xz * bc.s == (a.xz * b.s) * c.s - (a.xz * b.xw) * c.xw - (a.xz * b.xy) * c.xy + (a.xz * b.xyzw) * c.xyzw - (a.xz * b.xz) * c.xz - (a.xz * b.yw) * c.yw - (a.xz * b.yz) * c.yz - (a.xz * b.zw) * c.zw);
    lemma_mul_comm(a.yw, bc.xyzw);
    lemma_dist_xyzw_right(a.yw, b.s, c.xyzw, b.xw, c.yz, b.xy, c.zw, b.xyzw, c.s, b.xz, c.yw, b.yw, c.xz, b.yz, c.xw, b.zw, c.xy, bc.xyzw);
    lemma_rot3(a.yw, b.s, c.xyzw);
    lemma_rot3(a.yw, b.xw, c.yz);
    lemma_rot3(a.yw, b.xy, c.zw);
    lemma_rot3(a.yw, b.xyzw, c.s);
    lemma_rot3(a.yw, b.xz, c.yw);
    lemma_rot3(a.yw, b.yw, c.xz);
    lemma_rot3(a.yw, b.yz, c.xw);
    lemma_rot3(a.yw, b.zw, c.xy);
    assert(a.yw * bc.xyzw == (a.yw * b.s) * c.xyzw + (a.yw * b.xw) * c.yz + (a.yw * b.xy) * c.zw + (a.yw * b.xyzw) * c.s - (a.yw * b.xz) * c.yw - (a.yw * b.yw) * c.xz + (a.yw * b.yz) * c.xw + (a.yw * b.zw) * c.xy);
    lemma_mul_comm(a.yz, bc.xy);
    lemma_dist_xy_right(a.yz, b.s, c.xy, b.xw, c.yw, b.xy, c.s, b.xyzw, c.zw, b.xz, c.yz, b.yw, c.xw, b.yz, c.xz, b.zw, c.xyzw, bc.xy);
    lemma_rot3(a.yz, b.s, c.xy);
    lemma_rot3(a.yz, b.xw, c.yw);
    lemma_rot3(a.yz, b.xy, c.s);
    lemma_rot3(a.yz, b.xyzw, c.zw);
    lemma_rot3(a.yz, b.xz, c.yz);
    lemma_rot3(a.yz, b.yw, c.xw);
    lemma_rot3(a.yz, b.yz, c.xz);
    lemma_rot3(a.yz, b.zw, c.xyzw);
    assert(a.yz * bc.xy == (a.yz * b.s) * c.xy - (a.yz * b.xw) * c.yw + (a.yz * b.xy) * c.s - (a.yz * b.xyzw) * c.zw - (a.yz * b.xz) * c.yz + (a.yz * b.yw) * c.xw + (a.yz * b.yz) * c.xz - (a.yz * b.zw) * c.xyzw);
    lemma_mul_comm(a.zw, bc.xw);
    lemma_dist_xw_right(a.zw, b.s, c.xw, b.xw, c.s, b.xy, c.yw, b.xyzw, c.yz, b.xz, c.zw, b.yw, c.xy, b.yz, c.xyzw, b.zw, c.xz, bc.xw);
    lemma_rot3(a.zw, b.s, c.xw);
    lemma_rot3(a.zw, b.xw, c.s);
    lemma_rot3(a.zw, b.xy, c.yw);
    lemma_rot3(a.zw, b.xyzw, c.yz);
    lemma_rot3(a.zw, b.xz, c.zw);
    lemma_rot3(a.zw, b.yw, c.xy);
    lemma_rot3(a.zw, b.yz, c.xyzw);
    lemma_rot3(a.zw, b.zw, c.xz);
    assert(a.zw * bc.xw == (a.zw * b.s) * c.xw + (a.zw * b.xw) * c.s + (a.zw * b.xy) * c.yw - (a.zw * b.xyzw) * c.yz + (a.zw * b.xz) * c.zw - (a.zw * b.yw) * c.xy - (a.zw * b.yz) * c.xyzw - (a.zw * b.zw) * c.xz);
    assert(rv_mul(ab, c).xz == rv_mul(a, bc).xz);
}

proof fn lemma_assoc_xw(a: RotorV, b: RotorV, c: RotorV)
    ensures
        rv_mul(rv_mul(a, b), c).xw == rv_mul(a, rv_mul(b, c)).xw,
{
    let ab = rv_mul(a, b);
    let bc = rv_mul(b, c);
    lemma_dist_s_right(c.xw, a.s, b.s, a.xw, b.xw, a.xy, b.xy, a.xyzw, b.xyzw, a.xz, b.xz, a.yw, b.yw, a.yz, b.yz, a.zw, b.zw, ab.s);
    assert(ab.s * c.xw == (a.s * b.s) * c.xw - (a.xw * b.xw) * c.xw - (a.xy * b.xy) * c.xw + (a.xyzw * b.xyzw) * c.xw - (a.xz * b.xz) * c.xw - (a.yw * b.yw) * c.xw - (a.yz * b.yz) * c.xw - (a.zw * b.zw) * c.xw);
    lemma_dist_xw_right(c.s, a.s, b.xw, a.xw, b.s, a.xy, b.yw, a.xyzw, b.yz, a.xz, b.zw, a.yw, b.xy, a.yz, b.xyzw, a.zw, b.xz, ab.xw);
    assert(ab.xw * c.s == (a.s * b.xw) * c.s + (a.xw * b.s) * c.s + (a.xy * b.yw) * c.s - (a.xyzw * b.yz) * c.s + (a.xz * b.zw) * c.s - (a.yw * b.xy) * c.s - (a.yz * b.xyzw) * c.s - (a.zw * b.xz) * c.s);
    lemma_dist_xy_right(c.yw, a.s, b.xy, a.xw, b.yw, a.xy, b.s, a.xyzw, b.zw, a.xz, b.yz, a.yw, b.xw, a.yz, b.xz, a.zw, b.xyzw, ab.xy);
    assert(ab.xy * c.yw == (a.s * b.xy) * c.yw - (a.xw * b.yw) * c.yw + (a.xy * b.s) * c.yw - (a.xyzw * b.zw) * c.yw - (a.xz * b.yz) * c.yw + (a.yw * b.xw) * c.yw + (a.yz * b.xz) * c.yw - (a.zw * b.xyzw) * c.yw);
    lemma_dist_xyzw_right(c.yz, a.s, b.xyzw, a.xw, b.yz, a.xy, b.zw, a.xyzw, b.s, a.xz, b.yw, a.yw, b.xz, a.yz, b.xw, a.zw, b.xy, ab.xyzw);
    assert(ab.xyzw * c.yz == (a.s * b.xyzw) * c.yz + (a.xw * b.yz) * c.yz + (a.xy * b.zw) * c.yz + (a.xyzw * b.s) * c.yz - (a.xz * b.yw) * c.yz - (a.yw * b.xz) * c.yz + (a.yz * b.xw) * c.yz + (a.zw * b.xy) * c.yz);
    lemma_dist_xz_right(c.zw, a.s, b.xz, a.xw, b.zw, a.xy, b.yz, a.xyzw, b.yw, a.xz, b.s, a.yw, b.xyzw, a.yz, b.xy, a.zw, b.xw, ab.xz);
    assert(ab.xz * c.zw == (a.s * b.xz) * c.zw - (a.xw * b.zw) * c.zw + (a.xy * b.yz) * c.zw + (a.xyzw * b.yw) * c.zw + (a.xz * b.s) * c.zw + (a.yw * b.xyzw) * c.zw - (a.yz * b.xy) * c.zw + (a.zw * b.xw) * c.zw);
    lemma_dist_yw_right(c.xy, a.s, b.yw, a.xw, b.xy, a.xy, b.xw, a.xyzw, b.xz, a.xz, b.xyzw, a.yw, b.s, a.yz, b.zw, a.zw, b.yz, ab.yw);
    assert(ab.yw * c.xy == (a.s * b.yw) * c.xy + (a.xw * b.xy) * c.xy - (a.xy * b.xw) * c.xy + (a.xyzw * b.xz) * c.xy + (a.xz * b.xyzw) * c.xy + (a.yw * b.s) * c.xy + (a.yz * b.zw) * c.xy - (a.zw * b.yz) * c.xy);
    lemma_dist_yz_right(c.xyzw, a.s, b.yz, a.xw, b.xyzw, a.xy, b.xz, a.xyzw, b.xw, a.xz, b.xy, a.yw, b.zw, a.yz, b.s, a.zw, b.yw, ab.yz);
    assert(ab.yz * c.xyzw == (a.s * b.yz) * c.xyzw - (a.xw * b.xyzw) * c.xyzw - (a.xy * b.xz) * c.xyzw - (a.xyzw * b.xw) * c.xyzw + (a.xz * b.xy) * c.xyzw - (a.yw * b.zw) * c.xyzw + (a.yz * b.s) * c.xyzw + (a.zw * b.yw) * c.xyzw);
    lemma_dist_zw_right(c.xz, a.s, b.zw, a.xw, b.xz, a.xy, b.xyzw, a.xyzw, b.xy, a.xz, b.xw, a.yw, b.yz, a.yz, b.yw, a.zw, b.s, ab.zw);
    assert(ab.zw * c.xz == (a.s * b.zw) * c.xz + (a.xw * b.xz) * c.xz - (a.xy * b.xyzw) * c.xz - (a.xyzw * b.xy) * c.xz - (a.xz * b.xw) * c.xz + (a.yw * b.yz) * c.xz - (a.yz * b.yw) * c.xz + (a.zw * b.s) * c.xz);
    lemma_mul_comm(a.s, bc.xw);
    lemma_dist_xw_right(a.s, b.s, c.xw, b.xw, c.s, b.xy, c.yw, b.xyzw, c.yz, b.xz, c.zw, b.yw, c.xy, b.yz, c.xyzw, b.zw, c.xz, bc.xw);
    lemma_rot3(a.s, b.s, c.xw);
    lemma_rot3(a.s, b.xw, c.s);
    lemma_rot3(a.s, b.xy, c.yw);
    lemma_rot3(a.s, b.xyzw, c.yz);
    lemma_rot3(a.s, b.xz, c.zw);
    lemma_rot3(a.s, b.yw, c.xy);
    lemma_rot3(a.s, b.yz, c.xyzw);
    lemma_rot3(a.s, b.zw, c.xz);
    assert(a.s * bc.xw == (a.s * b.s) * c.xw + (a.s * b.xw) * c.s + (a.s * b.xy) * c.yw - (a.s * b.xyzw) * c.yz + (a.s * b.xz) * c.zw - (a.s * b.yw) * c.xy - (a.s * b.yz) * c.xyzw - (a.s * b.zw) * c.xz);
    lemma_mul_comm(a.xw, bc.s);
    lemma_dist_s_right(a.xw, b.s, c.s, b.xw, c.xw, b.xy, c.xy, b.xyzw, c.xyzw, b.xz, c.xz, b.yw, c.yw, b.yz, c.yz, b.zw, c.zw, bc.s);
    lemma_rot3(a.xw, b.s, c.s);
    lemma_rot3(a.xw, b.xw, c.xw);
    lemma_rot3(a.xw, b.xy, c.xy);
    lemma_rot3(a.xw, b.xyzw, c.xyzw);
    lemma_rot3(a.xw, b.xz, c.xz);
    lemma_rot3(a.xw, b.yw, c.yw);
    lemma_rot3(a.xw, b.yz, c.yz);
    lemma_rot3(a.xw, b.zw, c.zw);
    assert(a.xw * bc.s == (a.xw * b.s) * c.s - (a.xw * b.xw) * c.xw - (a.xw * b.xy) * c.xy + (a.xw * b.xyzw) * c.xyzw - (a.xw * b.xz) * c.xz - (a.xw * b.yw) * c.yw - (a.xw * b.yz) * c.yz - (a.xw * b.zw) * c.zw);
    lemma_mul_comm(a.xy, bc.yw);
    lemma_dist_yw_right(a.xy, b.s, c.yw, b.xw, c.xy, b.xy, c.xw, b.xyzw, c.xz, b.xz, c.xyzw, b.yw, c.s, b.yz, c.zw, b.zw, c.yz, bc.yw);
    lemma_rot3(a.xy, b.s, c.yw);
    lemma_rot3(a.xy, b.xw, c.xy);
    lemma_rot3(a.xy, b.xy, c.xw);
    lemma_rot3(a.xy, b.xyzw, c.xz);
    lemma_rot3(a.xy, b.xz, c.xyzw);
    lemma_rot3(a.xy, b.yw, c.s);
    lemma_rot3(a.xy, b.yz, c.zw);
    lemma_rot3(a.xy, b.zw, c.yz);
    assert(a.xy * bc.yw == (a.xy * b.s) * c.yw + (a.xy * b.xw) * c.xy - (a.xy * b.xy) * c.xw + (a.xy * b.xyzw) * c.xz + (a.xy * b.xz) * c.xyzw + (a.xy * b.yw) * c.s + (a.xy * b.yz) * c.zw - (a.xy * b.zw) * c.yz);
    lemma_mul_comm(a.xyzw, bc.yz);
    lemma_dist_yz_right(a.xyzw, b.s, c.yz, b.xw, c.xyzw, b.xy, c.xz, b.xyzw, c.xw, b.xz, c.xy, b.yw, c.zw, b.yz, c.s, b.zw, c.yw, bc.yz);
    lemma_rot3(a.xyzw, b.s, c.yz);
    lemma_rot3(a.xyzw, b.xw, c.xyzw);
    lemma_rot3(a.xyzw, b.xy, c.xz);
    lemma_rot3(a.xyzw, b.xyzw, c.xw);
    lemma_rot3(a.xyzw, b.xz, c.xy);
    lemma_rot3(a.xyzw, b.yw, c.zw);
    lemma_rot3(a.xyzw, b.yz, c.s);
    lemma_rot3(a.xyzw, b.zw, c.yw);
    assert(a.xyzw * bc.yz == (a.xyzw * b.s) * c.yz - (a.xyzw * b.xw) * c.xyzw - (a.xyzw * b.xy) * c.xz - (a.xyzw * b.xyzw) * c.xw + (a.xyzw * b.xz) * c.xy - (a.xyzw * b.yw) * c.zw + (a.xyzw * b.yz) * c.s + (a.xyzw * b.zw) * c.yw);
    lemma_mul_comm(a.xz, bc.zw);
    lemma_dist_zw_right(a.xz, b.s, c.zw, b.xw, c.xz, b.xy, c.xyzw, b.xyzw, c.xy, b.xz, c.xw, b.yw, c.yz, b.yz, c.yw, b.zw, c.s, bc.zw);
    lemma_rot3(a.xz, b.s, c.zw);
    lemma_rot3(a.xz, b.xw, c.xz);
    lemma_rot3(a.xz, b.xy, c.xyzw);
    lemma_rot3(a.xz, b.xyzw, c.xy);
    lemma_rot3(a.xz, b.xz, c.xw);
    lemma_rot3(a.xz, b.yw, c.yz);
    lemma_rot3(a.xz, b.yz, c.yw);
    lemma_rot3(a.xz, b.zw, c.s);
    assert(a.xz * bc.zw == (a.xz * b.s) * c.zw + (a.xz * b.xw) * c.xz - (a.xz * b.xy) * c.xyzw - (a.xz * b.xyzw) * c.xy - (a.xz * b.xz) * c.xw + (a.xz * b.yw) * c.yz - (a.xz * b.yz) * c.yw + (a.xz * b.zw) * c.s);
    lemma_mul_comm(a.yw, bc.xy);
    lemma_dist_xy_right(a.yw, b.s, c.xy, b.xw, c.yw, b.xy, c.s, b.xyzw, c.zw, b.xz, c.yz, b.yw, c.xw, b.yz, c.xz, b.zw, c.xyzw, bc.xy);
    lemma_rot3(a.yw, b.s, c.xy);
    lemma_rot3(a.yw, b.xw, c.yw);
    lemma_rot3(a.yw, b.xy, c.s);
    lemma_rot3(a.yw, b.xyzw, c.zw);
    lemma_rot3(a.yw, b.xz, c.yz);
    lemma_rot3(a.yw, b.yw, c.xw);
    lemma_rot3(a.yw, b.yz, c.xz);
    lemma_rot3(a.yw, b.zw, c.xyzw);
    assert(a.yw * bc.xy == (a.yw * b.s) * c.xy - (a.yw * b.xw) * c.yw + (a.yw * b.xy) * c.s - (a.yw * b.xyzw) * c.zw - (a.yw * b.xz) * c.yz + (a.yw * b.yw) * c.xw + (a.yw * b.yz) * c.xz - (a.yw * b.zw) * c.xyzw);
    lemma_mul_comm(a.yz, bc.xyzw);
    lemma_dist_xyzw_right(a.yz, b.s, c.xyzw, b.xw, c.yz, b.xy, c.zw, b.xyzw, c.s, b.xz, c.yw, b.yw, c.xz, b.yz, c.xw, b.zw, c.xy, bc.xyzw);
    lemma_rot3(a.yz, b.s, c.xyzw);
    lemma_rot3(a.yz, b.xw, c.yz);
    lemma_rot3(a.yz, b.xy, c.zw);
    lemma_rot3(a.yz, b.xyzw, c.s);
    lemma_rot3(a.yz, b.xz, c.yw);
    lemma_rot3(a.yz, b.yw, c.xz);
    lemma_rot3(a.yz, b.yz, c.xw);
    lemma_rot3(a.yz, b.zw, c.xy);
    assert(a.yz * bc.xyzw == (a.yz * b.s) * c.xyzw + (a.yz * b.xw) * c.yz + (a.yz * b.xy) * c.zw + (a.yz * b.xyzw) * c.s - (a.yz * b.xz) * c.yw - (a.yz * b.yw) * c.xz + (a.yz * b.yz) * c.xw + (a.yz * b.zw) * c.xy);
    lemma_mul_comm(a.zw, bc.xz);
    lemma_dist_xz_right(a.zw, b.s, c.xz, b.xw, c.zw, b.xy, c.yz, b.xyzw, c.yw, b.xz, c.s, b.yw, c.xyzw, b.yz, c.xy, b.zw, c.xw, bc.xz);
    lemma_rot3(a.zw, b.s, c.xz);
    lemma_rot3(a.zw, b.xw, c.zw);
    lemma_rot3(a.zw, b.xy, c.yz);
    lemma_rot3(a.zw, b.xyzw, c.yw);
    lemma_rot3(a.zw, b.xz, c.s);
    lemma_rot3(a.zw, b.yw, c.xyzw);
    lemma_rot3(a.zw, b.yz, c.xy);
    lemma_rot3(a.zw, b.zw, c.xw);
    assert(a.zw * bc.xz == (a.zw * b.s) * c.xz - (a.zw * b.xw) * c.zw + (a.zw * b.xy) * c.yz + (a.zw * b.xyzw) * c.yw + (a.zw * b.xz) * c.s + (a.zw * b.yw) * c.xyzw - (a.zw * b.yz) * c.xy + (a.zw * b.zw) * c.xw);
    assert(rv_mul(ab, c).xw == rv_mul(a, bc).xw);
}

proof fn lemma_assoc_yz(a: RotorV, b: RotorV, c: RotorV)
    ensures
        rv_mul(rv_mul(a, b), c).yz == rv_mul(a, rv_mul(b, c)).yz,
{
    let ab = rv_mul(a, b);
    let bc = rv_mul(b, c);
    lemma_dist_s_right(c.yz, a.s, b.s, a.xw, b.xw, a.xy, b.xy, a.xyzw, b.xyzw, a.xz, b.xz, a.yw, b.yw, a.yz, b.yz, a.zw, b.zw, ab.s);
    assert(ab.s * c.yz == (a.s * b.s) * c.yz - (a.xw * b.xw) * c.yz - (a.xy * b.xy) * c.yz + (a.xyzw * b.xyzw) * c.yz - (a.xz * b.xz) * c.yz - (a.yw * b.yw) * c.yz - (a.yz * b.yz) * c.yz - (a.zw * b.zw) * c.yz);
    lemma_dist_xw_right(c.xyzw, a.s, b.xw, a.xw, b.s, a.xy, b.yw, a.xyzw, b.yz, a.xz, b.zw, a.yw, b.xy, a.yz, b.xyzw, a.zw, b.xz, ab.xw);
    assert(ab.xw * c.xyzw == (a.s * b.xw) * c.xyzw + (a.xw * b.s) * c.xyzw + (a.xy * b.yw) * c.xyzw - (a.xyzw * b.yz) * c.xyzw + (a.xz * b.zw) * c.xyzw - (a.yw * b.xy) * c.xyzw - (a.yz * b.xyzw) * c.xyzw - (a.zw * b.xz) * c.xyzw);
    lemma_dist_xy_right(c.xz, a.s, b.xy, a.xw, b.yw, a.xy, b.s, a.xyzw, b.zw, a.xz, b.yz, a.yw, b.xw, a.yz, b.xz, a.zw, b.xyzw, ab.xy);
    assert(ab.xy * c.xz == (a.s * b.xy) * c.xz - (a.xw * b.yw) * c.xz + (a.xy * b.s) * c.xz - (a.xyzw * b.zw) * c.xz - (a.xz * b.yz) * c.xz + (a.yw * b.xw) * c.xz + (a.yz * b.xz) * c.xz - (a.zw * b.xyzw) * c.xz);
    lemma_dist_xyzw_right(c.xw, a.s, b.xyzw, a.xw, b.yz, a.xy, b.zw, a.xyzw, b.s, a.xz, b.yw, a.yw, b.xz, a.yz, b.xw, a.zw, b.xy, ab.xyzw);
    assert(ab.xyzw * c.xw == (a.s * b.xyzw) * c.xw + (a.xw * b.yz) * c.xw + (a.xy * b.zw) * c.xw + (a.xyzw * b.s) * c.xw - (a.xz * b.yw) * c.xw - (a.yw * b.xz) * c.xw + (a.yz * b.xw) * c.xw + (a.zw * b.xy) * c.xw);
    lemma_dist_xz_right(c.xy, a.s, b.xz, a.xw, b.zw, a.xy, b.yz, a.xyzw, b.yw, a.xz, b.s, a.yw, b.xyzw, a.yz, b.xy, a.zw, b.xw, ab.xz);
    assert(ab.xz * c.xy == (a.s * b.xz) * c.xy - (a.xw * b.zw) * c.xy + (a.xy * b.yz) * c.xy + (a.xyzw * b.yw) * c.xy + (a.xz * b.s) * c.xy + (a.yw * b.xyzw) * c.xy - (a.yz * b.xy) * c.xy + (a.zw * b.xw) * c.xy);
    lemma_dist_yw_right(c.zw, a.s, b.yw, a.xw, b.xy, a.xy, b.xw, a.xyzw, b.xz, a.xz, b.xyzw, a.yw, b.s, a.yz, b.zw, a.zw, b.yz, ab.yw);
    assert(ab.yw * c.zw == (a.s * b.yw) * c.zw + (a.xw * b.xy) * c.zw - (a.xy * b.xw) * c.zw + (a.xyzw * b.xz) * c.zw + (a.xz * b.xyzw) * c.zw + (a.yw * b.s) * c.zw + (a.yz * b.zw) * c.zw - (a.zw * b.yz) * c.zw);
    lemma_dist_yz_right(c.s, a.s, b.yz, a.xw, b.xyzw, a.xy, b.xz, a.xyzw, b.xw, a.xz, b.xy, a.yw, b.zw, a.yz, b.s, a.zw, b.yw, ab.yz);
    assert(ab.yz * c.s == (a.s * b.yz) * c.s - (a.xw * b.xyzw) * c.s - (a.xy * b.xz) * c.s - (a.xyzw * b.xw) * c.s + (a.xz * b.xy) * c.s - (a.yw * b.zw) * c.s + (a.yz * b.s) * c.s + (a.zw * b.yw) * c.s);
    lemma_dist_zw_right(c.yw, a.s, b.zw, a.xw, b.xz, a.xy, b.xyzw, a.xyzw, b.xy, a.xz, b.xw, a.yw, b.yz, a.yz, b.yw, a.zw, b.s, ab.zw);
    assert(ab.zw * c.yw == (a.s * b.zw) * c.yw + (a.xw * b.xz) * c.yw - (a.xy * b.xyzw) * c.yw - (a.xyzw * b.xy) * c.yw - (a.xz * b.xw) * c.yw + (a.yw * b.yz) * c.yw - (a.yz * b.yw) * c.yw + (a.zw * b.s) * c.yw);
    lemma_mul_comm(a.s, bc.yz);
    lemma_dist_yz_right(a.s, b.s, c.yz, b.xw, c.xyzw, b.xy, c.xz, b.xyzw, c.xw, b.xz, c.xy, b.yw, c.zw, b.yz, c.s, b.zw, c.yw, bc.yz);
    lemma_rot3(a.s, b.s, c.yz);
    lemma_rot3(a.s, b.xw, c.xyzw);
    lemma_rot3(a.s, b.xy, c.xz);
    lemma_rot3(a.s, b.xyzw, c.xw);
    lemma_rot3(a.s, b.xz, c.xy);
    lemma_rot3(a.s, b.yw, c.zw);
    lemma_rot3(a.s, b.yz, c.s);
    lemma_rot3(a.s, b.zw, c.yw);
    assert(a.s * bc.yz == (a.s * b.s) * c.yz - (a.s * b.xw) * c.xyzw - (a.s * b.xy) * c.xz - (a.s * b.xyzw) * c.xw + (a.s * b.xz) * c.xy - (a.s * b.yw) * c.zw + (a.s * b.yz) * c.s + (a.s * b.zw) * c.yw);
    lemma_mul_comm(a.xw, bc.xyzw);
    lemma_dist_xyzw_right(a.xw, b.s, c.xyzw, b.xw, c.yz, b.xy, c.zw, b.xyzw, c.s, b.xz, c.yw, b.yw, c.xz, b.yz, c.xw, b.zw, c.xy, bc.xyzw);
    lemma_rot3(a.xw, b.s, c.xyzw);
    lemma_rot3(a.xw, b.xw, c.yz);
    lemma_rot3(a.xw, b.xy, c.zw);
    lemma_rot3(a.xw, b.xyzw, c.s);
    lemma_rot3(a.xw, b.xz, c.yw);
    lemma_rot3(a.xw, b.yw, c.xz);
    lemma_rot3(a.xw, b.yz, c.xw);
    lemma_rot3(a.xw, b.zw, c.xy);
    assert(a.xw * bc.xyzw == (a.xw * b.s) * c.xyzw + (a.xw * b.xw) * c.yz + (a.xw * b.xy) * c.zw + (a.xw * b.xyzw) * c.s - (a.xw * b.xz) * c.yw - (a.xw * b.yw) * c.xz + (a.xw * b.yz) * c.xw + (a.xw * b.zw) * c.xy);
    lemma_mul_comm(a.xy, bc.xz);
    lemma_dist_xz_right(a.xy, b.s, c.xz, b.xw, c.zw, b.xy, c.yz, b.xyzw, c.yw, b.xz, c.s, b.yw, c.xyzw, b.yz, c.xy, b.zw, c.xw, bc.xz);
    lemma_rot3(a.xy, b.s, c.xz);
    lemma_rot3(a.xy, b.xw, c.zw);
    lemma_rot3(a.xy, b.xy, c.yz);
    lemma_rot3(a.xy, b.xyzw, c.yw);
    lemma_rot3(a.xy, b.xz, c.s);
    lemma_rot3(a.xy, b.yw, c.xyzw);
    lemma_rot3(a.xy, b.yz, c.xy);
    lemma_rot3(a.xy, b.zw, c.xw);
    assert(a.xy * bc.xz == (a.xy * b.s) * c.xz - (a.xy * b.xw) * c.zw + (a.xy * b.xy) * c.yz + (a.xy * b.xyzw) * c.yw + (a.xy * b.xz) * c.s + (a.xy * b.yw) * c.xyzw - (a.xy * b.yz) * c.xy + (a.xy * b.zw) * c.xw);
    lemma_mul_comm(a.xyzw, bc.xw);
    lemma_dist_xw_right(a.xyzw, b.s, c.xw, b.xw, c.s, b.xy, c.yw, b.xyzw, c.yz, b.xz, c.zw, b.yw, c.xy, b.yz, c.xyzw, b.zw, c.xz, bc.xw);
    lemma_rot3(a.xyzw, b.s, c.xw);
    lemma_rot3(a.xyzw, b.xw, c.s);
    lemma_rot3(a.xyzw, b.xy, c.yw);
    lemma_rot3(a.xyzw, b.xyzw, c.yz);
    lemma_rot3(a.xyzw, b.xz, c.zw);
    lemma_rot3(a.xyzw, b.yw, c.xy);
    lemma_rot3(a.xyzw, b.yz, c.xyzw);
    lemma_rot3(a.xyzw, b.zw, c.xz);
    assert(a.xyzw * bc.xw == (a.xyzw * b.s) * c.xw + (a.xyzw * b.xw) * c.s + (a.xyzw * b.xy) * c.yw - (a.xyzw * b.xyzw) * c.yz + (a.xyzw * b.xz) * c.zw - (a.xyzw * b.yw) * c.xy - (a.xyzw * b.yz) * c.xyzw - (a.xyzw * b.zw) * c.xz);
    lemma_mul_comm(a.xz, bc.xy);
    lemma_dist_xy_right(a.xz, b.s, c.xy, b.xw, c.yw, b.xy, c.s, b.xyzw, c.zw, b.xz, c.yz, b.yw, c.xw, b.yz, c.xz, b.zw, c.xyzw, bc.xy);
    lemma_rot3(a.xz, b.s, c.xy);
    lemma_rot3(a.xz, b.xw, c.yw);
    lemma_rot3(a.xz, b.xy, c.s);
    lemma_rot3(a.xz, b.xyzw, c.zw);
    lemma_rot3(a.xz, b.xz, c.yz);
    lemma_rot3(a.xz, b.yw, c.xw);
    lemma_rot3(a.xz, b.yz, c.xz);
    lemma_rot3(a.xz, b.zw, c.xyzw);
    assert(a.xz * bc.xy == (a.xz * b.s) * c.xy - (a.xz * b.xw) * c.yw + (a.xz * b.xy) * c.s - (a.xz * b.xyzw) * c.zw - (a.xz * b.xz) * c.yz + (a.xz * b.yw) * c.xw + (a.xz * b.yz) * c.xz - (a.xz * b.zw) * c.xyzw);
    lemma_mul_comm(a.yw, bc.zw);
    lemma_dist_zw_right(a.yw, b.s, c.zw, b.xw, c.xz, b.xy, c.xyzw, b.xyzw, c.xy, b.xz, c.xw, b.yw, c.yz, b.yz, c.yw, b.zw, c.s, bc.zw);
    lemma_rot3(a.yw, b.s, c.zw);
    lemma_rot3(a.yw, b.xw, c.xz);
    lemma_rot3(a.yw, b.xy, c.xyzw);
    lemma_rot3(a.yw, b.xyzw, c.xy);
    lemma_rot3(a.yw, b.xz, c.xw);
    lemma_rot3(a.yw, b.yw, c.yz);
    lemma_rot3(a.yw, b.yz, c.yw);
    lemma_rot3(a.yw, b.zw, c.s);
    assert(a.yw * bc.zw == (a.yw * b.s) * c.zw + (a.yw * b.xw) * c.xz - (a.yw * b.xy) * c.xyzw - (a.yw * b.xyzw) * c.xy - (a.yw * b.xz) * c.xw + (a.yw * b.yw) * c.yz - (a.yw * b.yz) * c.yw + (a.yw * b.zw) * c.s);
    lemma_mul_comm(a.yz, bc.s);
    lemma_dist_s_right(a.yz, b.s, c.s, b.xw, c.xw, b.xy, c.xy, b.xyzw, c.xyzw, b.xz, c.xz, b.yw, c.yw, b.yz, c.yz, b.zw, c.zw, bc.s);
    lemma_rot3(a.yz, b.s, c.s);
    lemma_rot3(a.yz, b.xw, c.xw);
    lemma_rot3(a.yz, b.xy, c.xy);
    lemma_rot3(a.yz, b.xyzw, c.xyzw);
    lemma_rot3(a.yz, b.xz, c.xz);
    lemma_rot3(a.yz, b.yw, c.yw);
    lemma_rot3(a.yz, b.yz, c.yz);
    lemma_rot3(a.yz, b.zw, c.zw);
    assert(a.yz * bc.s == (a.yz * b.s) * c.s - (a.yz * b.xw) * c.xw - (a.yz * b.xy) * c.xy + (a.yz * b.xyzw) * c.xyzw - (a.yz * b.xz) * c.xz - (a.yz * b.yw) * c.yw - (a.yz * b.yz) * c.yz - (a.yz * b.zw) * c.zw);
    lemma_mul_comm(a.zw, bc.yw);
    lemma_dist_yw_right(a.zw, b.s, c.yw, b.xw, c.xy, b.xy, c.xw, b.xyzw, c.xz, b.xz, c.xyzw, b.yw, c.s, b.yz, c.zw, b.zw, c.yz, bc.yw);
    lemma_rot3(a.zw, b.s, c.yw);
    lemma_rot3(a.zw, b.xw, c.xy);
    lemma_rot3(a.zw, b.xy, c.xw);
    lemma_rot3(a.zw, b.xyzw, c.xz);
    lemma_rot3(a.zw, b.xz, c.xyzw);
    lemma_rot3(a.zw, b.yw, c.s);
    lemma_rot3(a.zw, b.yz, c.zw);
    lemma_rot3(a.zw, b.zw, c.yz);
    assert(a.zw * bc.yw == (a.zw * b.s) * c.yw + (a.zw * b.xw) * c.xy - (a.zw * b.xy) * c.xw + (a.zw * b.xyzw) * c.xz + (a.zw * b.xz) * c.xyzw + (a.zw * b.yw) * c.s + (a.zw * b.yz) * c.zw - (a.zw * b.zw) * c.yz);
    assert(rv_mul(ab, c).yz == rv_mul(a, bc).yz);
}

proof fn lemma_assoc_yw(a: RotorV, b: RotorV, c: RotorV)
    ensures
        rv_mul(rv_mul(a, b), c).yw == rv_mul(a, rv_mul(b, c)).yw,
{
    let ab = rv_mul(a, b);
    let bc = rv_mul(b, c);
    lemma_dist_s_right(c.yw, a.s, b.s, a.xw, b.xw, a.xy, b.xy, a.xyzw, b.xyzw, a.xz, b.xz, a.yw, b.yw, a.yz, b.yz, a.zw, b.zw, ab.s);
    assert(ab.s * c.yw == (a.s * b.s) * c.yw - (a.xw * b.xw) * c.yw - (a.xy * b.xy) * c.yw + (a.xyzw * b.xyzw) * c.yw - (a.xz * b.xz) * c.yw - (a.yw * b.yw) * c.yw - (a.yz * b.yz) * c.yw - (a.zw * b.zw) * c.yw);
    lemma_dist_xw_right(c.xy, a.s, b.xw, a.xw, b.s, a.xy, b.yw, a.xyzw, b.yz, a.xz, b.zw, a.yw, b.xy, a.yz, b.xyzw, a.zw, b.xz, ab.xw);
    assert(ab.xw * c.xy == (a.s * b.xw) * c.xy + (a.xw * b.s) * c.xy + (a.xy * b.yw) * c.xy - (a.xyzw * b.yz) * c.xy + (a.xz * b.zw) * c.xy - (a.yw * b.xy) * c.xy - (a.yz * b.xyzw) * c.xy - (a.zw * b.xz) * c.xy);
    lemma_dist_xy_right(c.xw, a.s, b.xy, a.xw, b.yw, a.xy, b.s, a.xyzw, b.zw, a.xz, b.yz, a.yw, b.xw, a.yz, b.xz, a.zw, b.xyzw, ab.xy);
    assert(ab.xy * c.xw == (a.s * b.xy) * c.xw - (a.xw * b.yw) * c.xw + (a.xy * b.s) * c.xw - (a.xyzw * b.zw) * c.xw - (a.xz * b.yz) * c.xw + (a.yw * b.xw) * c.xw + (a.yz * b.xz) * c.xw - (a.zw * b.xyzw) * c.xw);
    lemma_dist_xyzw_right(c.xz, a.s, b.xyzw, a.xw, b.yz, a.xy, b.zw, a.xyzw, b.s, a.xz, b.yw, a.yw, b.xz, a.yz, b.xw, a.zw, b.xy, ab.xyzw);
    assert(ab.xyzw * c.xz == (a.s * b.xyzw) * c.xz + (a.xw * b.yz) * c.xz + (a.xy * b.zw) * c.xz + (a.xyzw * b.s) * c.xz - (a.xz * b.yw) * c.xz - (a.yw * b.xz) * c.xz + (a.yz * b.xw) * c.xz + (a.zw * b.xy) * c.xz);
    lemma_dist_xz_right(c.xyzw, a.s, b.xz, a.xw, b.zw, a.xy, b.yz, a.xyzw, b.yw, a.xz, b.s, a.yw, b.xyzw, a.yz, b.xy, a.zw, b.xw, ab.xz);
    assert(ab.xz * c.xyzw == (a.s * b.xz) * c.xyzw - (a.xw * b.zw) * c.xyzw + (a.xy * b.yz) * c.xyzw + (a.xyzw * b.yw) * c.xyzw + (a.xz * b.s) * c.xyzw + (a.yw * b.xyzw) * c.xyzw - (a.yz * b.xy) * c.xyzw + (a.zw * b.xw) * c.xyzw);
    lemma_dist_yw_right(c.s, a.s, b.yw, a.xw, b.xy, a.xy, b.xw, a.xyzw, b.xz, a.xz, b.xyzw, a.yw, b.s, a.yz, b.zw, a.zw, b.yz, ab.yw);
    assert(ab.yw * c.s == (a.s * b.yw) * c.s + (a.xw * b.xy) * c.s - (a.xy * b.xw) * c.s + (a.xyzw * b.xz) * c.s + (a.xz * b.xyzw) * c.s + (a.yw * b.s) * c.s + (a.yz * b.zw) * c.s - (a.zw * b.yz) * c.s);
    lemma_dist_yz_right(c.zw, a.s, b.yz, a.xw, b.xyzw, a.xy, b.xz, a.xyzw, b.xw, a.xz, b.xy, a.yw, b.zw, a.yz, b.s, a.zw, b.yw, ab.yz);
    assert(ab.yz * c.zw == (a.s * b.yz) * c.zw - (a.xw * b.xyzw) * c.zw - (a.xy * b.xz) * c.zw - (a.xyzw * b.xw) * c.zw + (a.xz * b.xy) * c.zw - (a.yw * b.zw) * c.zw + (a.yz * b.s) * c.zw + (a.zw * b.yw) * c.zw);
    lemma_dist_zw_right(c.yz, a.s, b.zw, a.xw, b.xz, a.xy, b.xyzw, a.xyzw, b.xy, a.xz, b.xw, a.yw, b.yz, a.yz, b.yw, a.zw, b.s, ab.zw);
    assert(ab.zw * c.yz == (a.s * b.zw) * c.yz + (a.xw * b.xz) * c.yz - (a.xy * b.xyzw) * c.yz - (a.xyzw * b.xy) * c.yz - (a.xz * b.xw) * c.yz + (a.yw * b.yz) * c.yz - (a.yz * b.yw) * c.yz + (a.zw * b.s) * c.yz);
    lemma_mul_comm(a.s, bc.yw);
    lemma_dist_yw_right(a.s, b.s, c.yw, b.xw, c.xy, b.xy, c.xw, b.xyzw, c.xz, b.xz, c.xyzw, b.yw, c.s, b.yz, c.zw, b.zw, c.yz, bc.yw);
    lemma_rot3(a.s, b.s, c.yw);
    lemma_rot3(a.s, b.xw, c.xy);
    lemma_rot3(a.s, b.xy, c.xw);
    lemma_rot3(a.s, b.xyzw, c.xz);
    lemma_rot3(a.s, b.xz, c.xyzw);
    lemma_rot3(a.s, b.yw, c.s);
    lemma_rot3(a.s, b.yz, c.zw);
    lemma_rot3(a.s, b.zw, c.yz);
    assert(a.s * bc.yw == (a.s * b.s) * c.yw + (a.s * b.xw) * c.xy - (a.s * b.xy) * c.xw + (a.s * b.xyzw) * c.xz + (a.s * b.xz) * c.xyzw + (a.s * b.yw) * c.s + (a.s * b.yz) * c.zw - (a.s * b.zw) * c.yz);
    lemma_mul_comm(a.xw, bc.xy);
    lemma_dist_xy_right(a.xw, b.s, c.xy, b.xw, c.yw, b.xy, c.s, b.xyzw, c.zw, b.xz, c.yz, b.yw, c.xw, b.yz, c.xz, b.zw, c.xyzw, bc.xy);
    lemma_rot3(a.xw, b.s, c.xy);
    lemma_rot3(a.xw, b.xw, c.yw);
    lemma_rot3(a.xw, b.xy, c.s);
    lemma_rot3(a.xw, b.xyzw, c.zw);
    lemma_rot3(a.xw, b.xz, c.yz);
    lemma_rot3(a.xw, b.yw, c.xw);
    lemma_rot3(a.xw, b.yz, c.xz);
    lemma_rot3(a.xw, b.zw, c.xyzw);
    assert(a.xw * bc.xy == (a.xw * b.s) * c.xy - (a.xw * b.xw) * c.yw + (a.xw * b.xy) * c.s - (a.xw * b.xyzw) * c.zw - (a.xw * b.xz) * c.yz + (a.xw * b.yw) * c.xw + (a.xw * b.yz) * c.xz - (a.xw * b.zw) * c.xyzw);
    lemma_mul_comm(a.xy, bc.xw);
    lemma_dist_xw_right(a.xy, b.s, c.xw, b.xw, c.s, b.xy, c.yw, b.xyzw, c.yz, b.xz, c.zw, b.yw, c.xy, b.yz, c.xyzw, b.zw, c.xz, bc.xw);
    lemma_rot3(a.xy, b.s, c.xw);
    lemma_rot3(a.xy, b.xw, c.s);
    lemma_rot3(a.xy, b.xy, c.yw);
    lemma_rot3(a.xy, b.xyzw, c.yz);
    lemma_rot3(a.xy, b.xz, c.zw);
    lemma_rot3(a.xy, b.yw, c.xy);
    lemma_rot3(a.xy, b.yz, c.xyzw);
    lemma_rot3(a.xy, b.zw, c.xz);
    assert(a.xy * bc.xw == (a.xy * b.s) * c.xw + (a.xy * b.xw) * c.s + (a.xy * b.xy) * c.yw - (a.xy * b.xyzw) * c.yz + (a.xy * b.xz) * c.zw - (a.xy * b.yw) * c.xy - (a.xy * b.yz) * c.xyzw - (a.xy * b.zw) * c.xz);
    lemma_mul_comm(a.xyzw, bc.xz);
    lemma_dist_xz_right(a.xyzw, b.s, c.xz, b.xw, c.zw, b.xy, c.yz, b.xyzw, c.yw, b.xz, c.s, b.yw, c.xyzw, b.yz, c.xy, b.zw, c.xw, bc.xz);
    lemma_rot3(a.xyzw, b.s, c.xz);
    lemma_rot3(a.xyzw, b.xw, c.zw);
    lemma_rot3(a.xyzw, b.xy, c.yz);
    lemma_rot3(a.xyzw, b.xyzw, c.yw);
    lemma_rot3(a.xyzw, b.xz, c.s);
    lemma_rot3(a.xyzw, b.yw, c.xyzw);
    lemma_rot3(a.xyzw, b.yz, c.xy);
    lemma_rot3(a.xyzw, b.zw, c.xw);
    assert(a.xyzw * bc.xz == (a.xyzw * b.s) * c.xz - (a.xyzw * b.xw) * c.zw + (a.xyzw * b.xy) * c.yz + (a.xyzw * b.xyzw) * c.yw + (a.xyzw * b.xz) * c.s + (a.xyzw * b.yw) * c.xyzw - (a.xyzw * b.yz) * c.xy + (a.xyzw * b.zw) * c.xw);
    lemma_mul_comm(a.xz, bc.xyzw);
    lemma_dist_xyzw_right(a.xz, b.s, c.xyzw, b.xw, c.yz, b.xy, c.zw, b.xyzw, c.s, b.xz, c.yw, b.yw, c.xz, b.yz, c.xw, b.zw, c.xy, bc.xyzw);
    lemma_rot3(a.xz, b.s, c.xyzw);
    lemma_rot3(a.xz, b.xw, c.yz);
    lemma_rot3(a.xz, b.xy, c.zw);
    lemma_rot3(a.xz, b.xyzw, c.s);
    lemma_rot3(a.xz, b.xz, c.yw);
    lemma_rot3(a.xz, b.yw, c.xz);
    lemma_rot3(a.xz, b.yz, c.xw);
    lemma_rot3(a.xz, b.zw, c.xy);
    assert(a.xz * bc.xyzw == (a.xz * b.s) * c.xyzw + (a.xz * b.xw) * c.yz + (a.xz * b.xy) * c.zw + (a.xz * b.xyzw) * c.s - (a.xz * b.xz) * c.yw - (a.xz * b.yw) * c.xz + (a.xz * b.yz) * c.xw + (a.xz * b.zw) * c.xy);
    lemma_mul_comm(a.yw, bc.s);
    lemma_dist_s_right(a.yw, b.s, c.s, b.xw, c.xw, b.xy, c.xy, b.xyzw, c.xyzw, b.xz, c.xz, b.yw, c.yw, b.yz, c.yz, b.zw, c.zw, bc.s);
    lemma_rot3(a.yw, b.s, c.s);
    lemma_rot3(a.yw, b.xw, c.xw);
    lemma_rot3(a.yw, b.xy, c.xy);
    lemma_rot3(a.yw, b.xyzw, c.xyzw);
    lemma_rot3(a.yw, b.xz, c.xz);
    lemma_rot3(a.yw, b.yw, c.yw);
    lemma_rot3(a.yw, b.yz, c.yz);
    lemma_rot3(a.yw, b.zw, c.zw);
    assert(a.yw * bc.s == (a.yw * b.s) * c.s - (a.yw * b.xw) * c.xw - (a.yw * b.xy) * c.xy + (a.yw * b.xyzw) * c.xyzw - (a.yw * b.xz) * c.xz - (a.yw * b.yw) * c.yw - (a.yw * b.yz) * c.yz - (a.yw * b.zw) * c.zw);
    lemma_mul_comm(a.yz, bc.zw);
    lemma_dist_zw_right(a.yz, b.s, c.zw, b.xw, c.xz, b.xy, c.xyzw, b.xyzw, c.xy, b.xz, c.xw, b.yw, c.yz, b.yz, c.yw, b.zw, c.s, bc.zw);
    lemma_rot3(a.yz, b.s, c.zw);
    lemma_rot3(a.yz, b.xw, c.xz);
    lemma_rot3(a.yz, b.xy, c.xyzw);
    lemma_rot3(a.yz, b.xyzw, c.xy);
    lemma_rot3(a.yz, b.xz, c.xw);
    lemma_rot3(a.yz, b.yw, c.yz);
    lemma_rot3(a.yz, b.yz, c.yw);
    lemma_rot3(a.yz, b.zw, c.s);
    assert(a.yz * bc.zw == (a.yz * b.s) * c.zw + (a.yz * b.xw) * c.xz - (a.yz * b.xy) * c.xyzw - (a.yz * b.xyzw) * c.xy - (a.yz * b.xz) * c.xw + (a.yz * b.yw) * c.yz - (a.yz * b.yz) * c.yw + (a.yz * b.zw) * c.s);
    lemma_mul_comm(a.zw, bc.yz);
    lemma_dist_yz_right(a.zw, b.s, c.yz, b.xw, c.xyzw, b.xy, c.xz, b.xyzw, c.xw, b.xz, c.xy, b.yw, c.zw, b.yz, c.s, b.zw, c.yw, bc.yz);
    lemma_rot3(a.zw, b.s, c.yz);
    lemma_rot3(a.zw, b.xw, c.xyzw);
    lemma_rot3(a.zw, b.xy, c.xz);
    lemma_rot3(a.zw, b.xyzw, c.xw);
    lemma_rot3(a.zw, b.xz, c.xy);
    lemma_rot3(a.zw, b.yw, c.zw);
    lemma_rot3(a.zw, b.yz, c.s);
    lemma_rot3(a.zw, b.zw, c.yw);
    assert(a.zw * bc.yz == (a.zw * b.s) * c.yz - (a.zw * b.xw) * c.xyzw - (a.zw * b.xy) * c.xz - (a.zw * b.xyzw) * c.xw + (a.zw * b.xz) * c.xy - (a.zw * b.yw) * c.zw + (a.zw * b.yz) * c.s + (a.zw * b.zw) * c.yw);
    assert(rv_mul(ab, c).yw == rv_mul(a, bc).yw);
}

proof fn lemma_assoc_zw(a: RotorV, b: RotorV, c: RotorV)
    ensures
        rv_mul(rv_mul(a, b), c).zw == rv_mul(a, rv_mul(b, c)).zw,
{
    let ab = rv_mul(a, b);
    let bc = rv_mul(b, c);
    lemma_dist_s_right(c.zw, a.s, b.s, a.xw, b.xw, a.xy, b.xy, a.xyzw, b.xyzw, a.xz, b.xz, a.yw, b.yw, a.yz, b.yz, a.zw, b.zw, ab.s);
    assert(ab.s * c.zw == (a.s * b.s) * c.zw - (a.xw * b.xw) * c.zw - (a.xy * b.xy) * c.zw + (a.xyzw * b.xyzw) * c.zw - (a.xz * b.xz) * c.zw - (a.yw * b.yw) * c.zw - (a.yz * b.yz) * c.zw - (a.zw * b.zw) * c.zw);
    lemma_dist_xw_right(c.xz, a.s, b.xw, a.xw, b.s, a.xy, b.yw, a.xyzw, b.yz, a.xz, b.zw, a.yw, b.xy, a.yz, b.xyzw, a.zw, b.xz, ab.xw);
    assert(ab.xw * c.xz == (a.s * b.xw) * c.xz + (a.xw * b.s) * c.xz + (a.xy * b.yw) * c.xz - (a.xyzw * b.yz) * c.xz + (a.xz * b.zw) * c.xz - (a.yw * b.xy) * c.xz - (a.yz * b.xyzw) * c.xz - (a.zw * b.xz) * c.xz);
    lemma_dist_xy_right(c.xyzw, a.s, b.xy, a.xw, b.yw, a.xy, b.s, a.xyzw, b.zw, a.xz, b.yz, a.yw, b.xw, a.yz, b.xz, a.zw, b.xyzw, ab.xy);
    assert(ab.xy * c.xyzw == (a.s * b.xy) * c.xyzw - (a.xw * b.yw) * c.xyzw + (a.xy * b.s) * c.xyzw - (a.xyzw * b.zw) * c.xyzw - (a.xz * b.yz) * c.xyzw + (a.yw * b.xw) * c.xyzw + (a.yz * b.xz) * c.xyzw - (a.zw * b.xyzw) * c.xyzw);
    lemma_dist_xyzw_right(c.xy, a.s, b.xyzw, a.xw, b.yz, a.xy, b.zw, a.xyzw, b.s, a.xz, b.yw, a.yw, b.xz, a.yz, b.xw, a.zw, b.xy, ab.xyzw);
    assert(ab.xyzw * c.xy == (a.s * b.xyzw) * c.xy + (a.xw * b.yz) * c.xy + (a.xy * b.zw) * c.xy + (a.xyzw * b.s) * c.xy - (a.xz * b.yw) * c.xy - (a.yw * b.xz) * c.xy + (a.yz * b.xw) * c.xy + (a.zw * b.xy) * c.xy);
    lemma_dist_xz_right(c.xw, a.s, b.xz, a.xw, b.zw, a.xy, b.yz, a.xyzw, b.yw, a.xz, b.s, a.yw, b.xyzw, a.yz, b.xy, a.zw, b.xw, ab.xz);
    assert(ab.xz * c.xw == (a.s * b.xz) * c.xw - (a.xw * b.zw) * c.xw + (a.xy * b.yz) * c.xw + (a.xyzw * b.yw) * c.xw + (a.xz * b.s) * c.xw + (a.yw * b.xyzw) * c.xw - (a.yz * b.xy) * c.xw + (a.zw * b.xw) * c.xw);
    lemma_dist_yw_right(c.yz, a.s, b.yw, a.xw, b.xy, a.xy, b.xw, a.xyzw, b.xz, a.xz, b.xyzw, a.yw, b.s, a.yz, b.zw, a.zw, b.yz, ab.yw);
    assert(ab.yw * c.yz == (a.s * b.yw) * c.yz + (a.xw * b.xy) * c.yz - (a.xy * b.xw) * c.yz + (a.xyzw * b.xz) * c.yz + (a.xz * b.xyzw) * c.yz + (a.yw * b.s) * c.yz + (a.yz * b.zw) * c.yz - (a.zw * b.yz) * c.yz);
    lemma_dist_yz_right(c.yw, a.s, b.yz, a.xw, b.xyzw, a.xy, b.xz, a.xyzw, b.xw, a.xz, b.xy, a.yw, b.zw, a.yz, b.s, a.zw, b.yw, ab.yz);
    assert(ab.yz * c.yw == (a.s * b.yz) * c.yw - (a.xw * b.xyzw) * c.yw - (a.xy * b.xz) * c.yw - (a.xyzw * b.xw) * c.yw + (a.xz * b.xy) * c.yw - (a.yw * b.zw) * c.yw + (a.yz * b.s) * c.yw + (a.zw * b.yw) * c.yw);
    lemma_dist_zw_right(c.s, a.s, b.zw, a.xw, b.xz, a.xy, b.xyzw, a.xyzw, b.xy, a.xz, b.xw, a.yw, b.yz, a.yz, b.yw, a.zw, b.s, ab.zw);
    assert(ab.zw * c.s == (a.s * b.zw) * c.s + (a.xw * b.xz) * c.s - (a.xy * b.xyzw) * c.s - (a.xyzw * b.xy) * c.s - (a.xz * b.xw) * c.s + (a.yw * b.yz) * c.s - (a.yz * b.yw) * c.s + (a.zw * b.s) * c.s);
    lemma_mul_comm(a.s, bc.zw);
    lemma_dist_zw_right(a.s, b.s, c.zw, b.xw, c.xz, b.xy, c.xyzw, b.xyzw, c.xy, b.xz, c.xw, b.yw, c.yz, b.yz, c.yw, b.zw, c.s, bc.zw);
    lemma_rot3(a.s, b.s, c.zw);
    lemma_rot3(a.s, b.xw, c.xz);
    lemma_rot3(a.s, b.xy, c.xyzw);
    lemma_rot3(a.s, b.xyzw, c.xy);
    lemma_rot3(a.s, b.xz, c.xw);
    lemma_rot3(a.s, b.yw, c.yz);
    lemma_rot3(a.s, b.yz, c.yw);
    lemma_rot3(a.s, b.zw, c.s);
    assert(a.s * bc.zw == (a.s * b.s) * c.zw + (a.s * b.xw) * c.xz - (a.s * b.xy) * c.xyzw - (a.s * b.xyzw) * c.xy - (a.s * b.xz) * c.xw + (a.s * b.yw) * c.yz - (a.s * b.yz) * c.yw + (a.s * b.zw) * c.s);
    lemma_mul_comm(a.xw, bc.xz);
    lemma_dist_xz_right(a.xw, b.s, c.xz, b.xw, c.zw, b.xy, c.yz, b.xyzw, c.yw, b.xz, c.s, b.yw, c.xyzw, b.yz, c.xy, b.zw, c.xw, bc.xz);
    lemma_rot3(a.xw, b.s, c.xz);
    lemma_rot3(a.xw, b.xw, c.zw);
    lemma_rot3(a.xw, b.xy, c.yz);
    lemma_rot3(a.xw, b.xyzw, c.yw);
    lemma_rot3(a.xw, b.xz, c.s);
    lemma_rot3(a.xw, b.yw, c.xyzw);
    lemma_rot3(a.xw, b.yz, c.xy);
    lemma_rot3(a.xw, b.zw, c.xw);
    assert(a.xw * bc.xz == (a.xw * b.s) * c.xz - (a.xw * b.xw) * c.zw + (a.xw * b.xy) * c.yz + (a.xw * b.xyzw) * c.yw + (a.xw * b.xz) * c.s + (a.xw * b.yw) * c.xyzw - (a.xw * b.yz) * c.xy + (a.xw * b.zw) * c.xw);
    lemma_mul_comm(a.xy, bc.xyzw);
    lemma_dist_xyzw_right(a.xy, b.s, c.xyzw, b.xw, c.yz, b.xy, c.zw, b.xyzw, c.s, b.xz, c.yw, b.yw, c.xz, b.yz, c.xw, b.zw, c.xy, bc.xyzw);
    lemma_rot3(a.xy, b.s, c.xyzw);
    lemma_rot3(a.xy, b.xw, c.yz);
    lemma_rot3(a.xy, b.xy, c.zw);
    lemma_rot3(a.xy, b.xyzw, c.s);
    lemma_rot3(a.xy, b.xz, c.yw);
    lemma_rot3(a.xy, b.yw, c.xz);
    lemma_rot3(a.xy, b.yz, c.xw);
    lemma_rot3(a.xy, b.zw, c.xy);
    assert(a.xy * bc.xyzw == (a.xy * b.s) * c.xyzw + (a.xy * b.xw) * c.yz + (a.xy * b.xy) * c.zw + (a.xy * b.xyzw) * c.s - (a.xy * b.xz) * c.yw - (a.xy * b.yw) * c.xz + (a.xy * b.yz) * c.xw + (a.xy * b.zw) * c.xy);
    lemma_mul_comm(a.xyzw, bc.xy);
    lemma_dist_xy_right(a.xyzw, b.s, c.xy, b.xw, c.yw, b.xy, c.s, b.xyzw, c.zw, b.xz, c.yz, b.yw, c.xw, b.yz, c.xz, b.zw, c.xyzw, bc.xy);
    lemma_rot3(a.xyzw, b.s, c.xy);
    lemma_rot3(a.xyzw, b.xw, c.yw);
    lemma_rot3(a.xyzw, b.xy, c.s);
    lemma_rot3(a.xyzw, b.xyzw, c.zw);
    lemma_rot3(a.xyzw, b.xz, c.yz);
    lemma_rot3(a.xyzw, b.yw, c.xw);
    lemma_rot3(a.xyzw, b.yz, c.xz);
    lemma_rot3(a.xyzw, b.zw, c.xyzw);
    assert(a.xyzw * bc.xy == (a.xyzw * b.s) * c.xy - (a.xyzw * b.xw) * c.yw + (a.xyzw * b.xy) * c.s - (a.xyzw * b.xyzw) * c.zw - (a.xyzw * b.xz) * c.yz + (a.xyzw * b.yw) * c.xw + (a.xyzw * b.yz) * c.xz - (a.xyzw * b.zw) * c.xyzw);
    lemma_mul_comm(a.xz, bc.xw);
    lemma_dist_xw_right(a.xz, b.s, c.xw, b.xw, c.s, b.xy, c.yw, b.xyzw, c.yz, b.xz, c.zw, b.yw, c.xy, b.yz, c.xyzw, b.zw, c.xz, bc.xw);
    lemma_rot3(a.xz, b.s, c.xw);
    lemma_rot3(a.xz, b.xw, c.s);
    lemma_rot3(a.xz, b.xy, c.yw);
    lemma_rot3(a.xz, b.xyzw, c.yz);
    lemma_rot3(a.xz, b.xz, c.zw);
    lemma_rot3(a.xz, b.yw, c.xy);
    lemma_rot3(a.xz, b.yz, c.xyzw);
    lemma_rot3(a.xz, b.zw, c.xz);
    assert(a.xz * bc.xw == (a.xz * b.s) * c.xw + (a.xz * b.xw) * c.s + (a.xz * b.xy) * c.yw - (a.xz * b.xyzw) * c.yz + (a.xz * b.xz) * c.zw - (a.xz * b.yw) * c.xy - (a.xz * b.yz) * c.xyzw - (a.xz * b.zw) * c.xz);
    lemma_mul_comm(a.yw, bc.yz);
    lemma_dist_yz_right(a.yw, b.s, c.yz, b.xw, c.xyzw, b.xy, c.xz, b.xyzw, c.xw, b.xz, c.xy, b.yw, c.zw, b.yz, c.s, b.zw, c.yw, bc.yz);
    lemma_rot3(a.yw, b.s, c.yz);
    lemma_rot3(a.yw, b.xw, c.xyzw);
    lemma_rot3(a.yw, b.xy, c.xz);
    lemma_rot3(a.yw, b.xyzw, c.xw);
    lemma_rot3(a.yw, b.xz, c.xy);
    lemma_rot3(a.yw, b.yw, c.zw);
    lemma_rot3(a.yw, b.yz, c.s);
    lemma_rot3(a.yw, b.zw, c.yw);
    assert(a.yw * bc.yz == (a.yw * b.s) * c.yz - (a.yw * b.xw) * c.xyzw - (a.yw * b.xy) * c.xz - (a.yw * b.xyzw) * c.xw + (a.yw * b.xz) * c.xy - (a.yw * b.yw) * c.zw + (a.yw * b.yz) * c.s + (a.yw * b.zw) * c.yw);
    lemma_mul_comm(a.yz, bc.yw);
    lemma_dist_yw_right(a.yz, b.s, c.yw, b.xw, c.xy, b.xy, c.xw, b.xyzw, c.xz, b.xz, c.xyzw, b.yw, c.s, b.yz, c.zw, b.zw, c.yz, bc.yw);
    lemma_rot3(a.yz, b.s, c.yw);
    lemma_rot3(a.yz, b.xw, c.xy);
    lemma_rot3(a.yz, b.xy, c.xw);
    lemma_rot3(a.yz, b.xyzw, c.xz);
    lemma_rot3(a.yz, b.xz, c.xyzw);
    lemma_rot3(a.yz, b.yw, c.s);
    lemma_rot3(a.yz, b.yz, c.zw);
    lemma_rot3(a.yz, b.zw, c.yz);
    assert(a.yz * bc.yw == (a.yz * b.s) * c.yw + (a.yz * b.xw) * c.xy - (a.yz * b.xy) * c.xw + (a.yz * b.xyzw) * c.xz + (a.yz * b.xz) * c.xyzw + (a.yz * b.yw) * c.s + (a.yz * b.yz) * c.zw - (a.yz * b.zw) * c.yz);
    lemma_mul_comm(a.zw, bc.s);
    lemma_dist_s_right(a.zw, b.s, c.s, b.xw, c.xw, b.xy, c.xy, b.xyzw, c.xyzw, b.xz, c.xz, b.yw, c.yw, b.yz, c.yz, b.zw, c.zw, bc.s);
    lemma_rot3(a.zw, b.s, c.s);
    lemma_rot3(a.zw, b.xw, c.xw);
    lemma_rot3(a.zw, b.xy, c.xy);
    lemma_rot3(a.zw, b.xyzw, c.xyzw);
    lemma_rot3(a.zw, b.xz, c.xz);
    lemma_rot3(a.zw, b.yw, c.yw);
    lemma_rot3(a.zw, b.yz, c.yz);
    lemma_rot3(a.zw, b.zw, c.zw);
    assert(a.zw * bc.s == (a.zw * b.s) * c.s - (a.zw * b.xw) * c.xw - (a.zw * b.xy) * c.xy + (a.zw * b.xyzw) * c.xyzw - (a.zw * b.xz) * c.xz - (a.zw * b.yw) * c.yw - (a.zw * b.yz) * c.yz - (a.zw * b.zw) * c.zw);
    assert(rv_mul(ab, c).zw == rv_mul(a, bc).zw);
}

proof fn lemma_assoc_xyzw(a: RotorV, b: RotorV, c: RotorV)
    ensures
        rv_mul(rv_mul(a, b), c).xyzw == rv_mul(a, rv_mul(b, c)).xyzw,
{
    let ab = rv_mul(a, b);
    let bc = rv_mul(b, c);
    lemma_dist_s_right(c.xyzw, a.s, b.s, a.xw, b.xw, a.xy, b.xy, a.xyzw, b.xyzw, a.xz, b.xz, a.yw, b.yw, a.yz, b.yz, a.zw, b.zw, ab.s);
    assert(ab.s * c.xyzw == (a.s * b.s) * c.xyzw - (a.xw * b.xw) * c.xyzw - (a.xy * b.xy) * c.xyzw + (a.xyzw * b.xyzw) * c.xyzw - (a.xz * b.xz) * c.xyzw - (a.yw * b.yw) * c.xyzw - (a.yz * b.yz) * c.xyzw - (a.zw * b.zw) * c.xyzw);
    lemma_dist_xw_right(c.yz, a.s, b.xw, a.xw, b.s, a.xy, b.yw, a.xyzw, b.yz, a.xz, b.zw, a.yw, b.xy, a.yz, b.xyzw, a.zw, b.xz, ab.xw);
    assert(ab.xw * c.yz == (a.s * b.xw) * c.yz + (a.xw * b.s) * c.yz + (a.xy * b.yw) * c.yz - (a.xyzw * b.yz) * c.yz + (a.xz * b.zw) * c.yz - (a.yw * b.xy) * c.yz - (a.yz * b.xyzw) * c.yz - (a.zw * b.xz) * c.yz);
    lemma_dist_xy_right(c.zw, a.s, b.xy, a.xw, b.yw, a.xy, b.s, a.xyzw, b.zw, a.xz, b.yz, a.yw, b.xw, a.yz, b.xz, a.zw, b.xyzw, ab.xy);
    assert(ab.xy * c.zw == (a.s * b.xy) * c.zw - (a.xw * b.yw) * c.zw + (a.xy * b.s) * c.zw - (a.xyzw * b.zw) * c.zw - (a.xz * b.yz) * c.zw + (a.yw * b.xw) * c.zw + (a.yz * b.xz) * c.zw - (a.zw * b.xyzw) * c.zw);
    lemma_dist_xyzw_right(c.s, a.s, b.xyzw, a.xw, b.yz, a.xy, b.zw, a.xyzw, b.s, a.xz, b.yw, a.yw, b.xz, a.yz, b.xw, a.zw, b.xy, ab.xyzw);
    assert(ab.xyzw * c.s == (a.s * b.xyzw) * c.s + (a.xw * b.yz) * c.s + (a.xy * b.zw) * c.s + (a.xyzw * b.s) * c.s - (a.xz * b.yw) * c.s - (a.yw * b.xz) * c.s + (a.yz * b.xw) * c.s + (a.zw * b.xy) * c.s);
    lemma_dist_xz_right(c.yw, a.s, b.xz, a.xw, b.zw, a.xy, b.yz, a.xyzw, b.yw, a.xz, b.s, a.yw, b.xyzw, a.yz, b.xy, a.zw, b.xw, ab.xz);
    assert(ab.xz * c.yw == (a.s * b.xz) * c.yw - (a.xw * b.zw) * c.yw + (a.xy * b.yz) * c.yw + (a.xyzw * b.yw) * c.yw + (a.xz * b.s) * c.yw + (a.yw * b.xyzw) * c.yw - (a.yz * b.xy) * c.yw + (a.zw * b.xw) * c.yw);
    lemma_dist_yw_right(c.xz, a.s, b.yw, a.xw, b.xy, a.xy, b.xw, a.xyzw, b.xz, a.xz, b.xyzw, a.yw, b.s, a.yz, b.zw, a.zw, b.yz, ab.yw);
    assert(ab.yw * c.xz == (a.s * b.yw) * c.xz + (a.xw * b.xy) * c.xz - (a.xy * b.xw) * c.xz + (a.xyzw * b.xz) * c.xz + (a.xz * b.xyzw) * c.xz + (a.yw * b.s) * c.xz + (a.yz * b.zw) * c.xz - (a.zw * b.yz) * c.xz);
    lemma_dist_yz_right(c.xw, a.s, b.yz, a.xw, b.xyzw, a.xy, b.xz, a.xyzw, b.xw, a.xz, b.xy, a.yw, b.zw, a.yz, b.s, a.zw, b.yw, ab.yz);
    assert(ab.yz * c.xw == (a.s * b.yz) * c.xw - (a.xw * b.xyzw) * c.xw - (a.xy * b.xz) * c.xw - (a.xyzw * b.xw) * c.xw + (a.xz * b.xy) * c.xw - (a.yw * b.zw) * c.xw + (a.yz * b.s) * c.xw + (a.zw * b.yw) * c.xw);
    lemma_dist_zw_right(c.xy, a.s, b.zw, a.xw, b.xz, a.xy, b.xyzw, a.xyzw, b.xy, a.xz, b.xw, a.yw, b.yz, a.yz, b.yw, a.zw, b.s, ab.zw);
    assert(ab.zw * c.xy == (a.s * b.zw) * c.xy + (a.xw * b.xz) * c.xy - (a.xy * b.xyzw) * c.xy - (a.xyzw * b.xy) * c.xy - (a.xz * b.xw) * c.xy + (a.yw * b.yz) * c.xy - (a.yz * b.yw) * c.xy + (a.zw * b.s) * c.xy);
    lemma_mul_comm(a.s, bc.xyzw);
    lemma_dist_xyzw_right(a.s, b.s, c.xyzw, b.xw, c.yz, b.xy, c.zw, b.xyzw, c.s, b.xz, c.yw, b.yw, c.xz, b.yz, c.xw, b.zw, c.xy, bc.xyzw);
    lemma_rot3(a.s, b.s, c.xyzw);
    lemma_rot3(a.s, b.xw, c.yz);
    lemma_rot3(a.s, b.xy, c.zw);
    lemma_rot3(a.s, b.xyzw, c.s);
    lemma_rot3(a.s, b.xz, c.yw);
    lemma_rot3(a.s, b.yw, c.xz);
    lemma_rot3(a.s, b.yz, c.xw);
    lemma_rot3(a.s, b.zw, c.xy);
    assert(a.s * bc.xyzw == (a.s * b.s) * c.xyzw + (a.s * b.xw) * c.yz + (a.s * b.xy) * c.zw + (a.s * b.xyzw) * c.s - (a.s * b.xz) * c.yw - (a.s * b.yw) * c.xz + (a.s * b.yz) * c.xw + (a.s * b.zw) * c.xy);
    lemma_mul_comm(a.xw, bc.yz);
    lemma_dist_yz_right(a.xw, b.s, c.yz, b.xw, c.xyzw, b.xy, c.xz, b.xyzw, c.xw, b.xz, c.xy, b.yw, c.zw, b.yz, c.s, b.zw, c.yw, bc.yz);
    lemma_rot3(a.xw, b.s, c.yz);
    lemma_rot3(a.xw, b.xw, c.xyzw);
    lemma_rot3(a.xw, b.xy, c.xz);
    lemma_rot3(a.xw, b.xyzw, c.xw);
    lemma_rot3(a.xw, b.xz, c.xy);
    lemma_rot3(a.xw, b.yw, c.zw);
    lemma_rot3(a.xw, b.yz, c.s);
    lemma_rot3(a.xw, b.zw, c.yw);
    assert(a.xw * bc.yz == (a.xw * b.s) * c.yz - (a.xw * b.xw) * c.xyzw - (a.xw * b.xy) * c.xz - (a.xw * b.xyzw) * c.xw + (a.xw * b.xz) * c.xy - (a.xw * b.yw) * c.zw + (a.xw * b.yz) * c.s + (a.xw * b.zw) * c.yw);
    lemma_mul_comm(a.xy, bc.zw);
    lemma_dist_zw_right(a.xy, b.s, c.zw, b.xw, c.xz, b.xy, c.xyzw, b.xyzw, c.xy, b.xz, c.xw, b.yw, c.yz, b.yz, c.yw, b.zw, c.s, bc.zw);
    lemma_rot3(a.xy, b.s, c.zw);
    lemma_rot3(a.xy, b.xw, c.xz);
    lemma_rot3(a.xy, b.xy, c.xyzw);
    lemma_rot3(a.xy, b.xyzw, c.xy);
    lemma_rot3(a.xy, b.xz, c.xw);
    lemma_rot3(a.xy, b.yw, c.yz);
    lemma_rot3(a.xy, b.yz, c.yw);
    lemma_rot3(a.xy, b.zw, c.s);
    assert(a.xy * bc.zw == (a.xy * b.s) * c.zw + (a.xy * b.xw) * c.xz - (a.xy * b.xy) * c.xyzw - (a.xy * b.xyzw) * c.xy - (a.xy * b.xz) * c.xw + (a.xy * b.yw) * c.yz - (a.xy * b.yz) * c.yw + (a.xy * b.zw) * c.s);
    lemma_mul_comm(a.xyzw, bc.s);
    lemma_dist_s_right(a.xyzw, b.s, c.s, b.xw, c.xw, b.xy, c.xy, b.xyzw, c.xyzw, b.xz, c.xz, b.yw, c.yw, b.yz, c.yz, b.zw, c.zw, bc.s);
    lemma_rot3(a.xyzw, b.s, c.s);
    lemma_rot3(a.xyzw, b.xw, c.xw);
    lemma_rot3(a.xyzw, b.xy, c.xy);
    lemma_rot3(a.xyzw, b.xyzw, c.xyzw);
    lemma_rot3(a.xyzw, b.xz, c.xz);
    lemma_rot3(a.xyzw, b.yw, c.yw);
    lemma_rot3(a.xyzw, b.yz, c.yz);
    lemma_rot3(a.xyzw, b.zw, c.zw);
    assert(a.xyzw * bc.s == (a.xyzw * b.s) * c.s - (a.xyzw * b.xw) * c.xw - (a.xyzw * b.xy) * c.xy + (a.xyzw * b.xyzw) * c.xyzw - (a.xyzw * b.xz) * c.xz - (a.xyzw * b.yw) * c.yw - (a.xyzw * b.yz) * c.yz - (a.xyzw * b.zw) * c.zw);
    lemma_mul_comm(a.xz, bc.yw);
    lemma_dist_yw_right(a.xz, b.s, c.yw, b.xw, c.xy, b.xy, c.xw, b.xyzw, c.xz, b.xz, c.xyzw, b.yw, c.s, b.yz, c.zw, b.zw, c.yz, bc.yw);
    lemma_rot3(a.xz, b.s, c.yw);
    lemma_rot3(a.xz, b.xw, c.xy);
    lemma_rot3(a.xz, b.xy, c.xw);
    lemma_rot3(a.xz, b.xyzw, c.xz);
    lemma_rot3(a.xz, b.xz, c.xyzw);
    lemma_rot3(a.xz, b.yw, c.s);
    lemma_rot3(a.xz, b.yz, c.zw);
    lemma_rot3(a.xz, b.zw, c.yz);
    assert(a.xz * bc.yw == (a.xz * b.s) * c.yw + (a.xz * b.xw) * c.xy - (a.xz * b.xy) * c.xw + (a.xz * b.xyzw) * c.xz + (a.xz * b.xz) * c.xyzw + (a.xz * b.yw) * c.s + (a.xz * b.yz) * c.zw - (a.xz * b.zw) * c.yz);
    lemma_mul_comm(a.yw, bc.xz);
    lemma_dist_xz_right(a.yw, b.s, c.xz, b.xw, c.zw, b.xy, c.yz, b.xyzw, c.yw, b.xz, c.s, b.yw, c.xyzw, b.yz, c.xy, b.zw, c.xw, bc.xz);
    lemma_rot3(a.yw, b.s, c.xz);
    lemma_rot3(a.yw, b.xw, c.zw);
    lemma_rot3(a.yw, b.xy, c.yz);
    lemma_rot3(a.yw, b.xyzw, c.yw);
    lemma_rot3(a.yw, b.xz, c.s);
    lemma_rot3(a.yw, b.yw, c.xyzw);
    lemma_rot3(a.yw, b.yz, c.xy);
    lemma_rot3(a.yw, b.zw, c.xw);
    assert(a.yw * bc.xz == (a.yw * b.s) * c.xz - (a.yw * b.xw) * c.zw + (a.yw * b.xy) * c.yz + (a.yw * b.xyzw) * c.yw + (a.yw * b.xz) * c.s + (a.yw * b.yw) * c.xyzw - (a.yw * b.yz) * c.xy + (a.yw * b.zw) * c.xw);
    lemma_mul_comm(a.yz, bc.xw);
    lemma_dist_xw_right(a.yz, b.s, c.xw, b.xw, c.s, b.xy, c.yw, b.xyzw, c.yz, b.xz, c.zw, b.yw, c.xy, b.yz, c.xyzw, b.zw, c.xz, bc.xw);
    lemma_rot3(a.yz, b.s, c.xw);
    lemma_rot3(a.yz, b.xw, c.s);
    lemma_rot3(a.yz, b.xy, c.yw);
    lemma_rot3(a.yz, b.xyzw, c.yz);
    lemma_rot3(a.yz, b.xz, c.zw);
    lemma_rot3(a.yz, b.yw, c.xy);
    lemma_rot3(a.yz, b.yz, c.xyzw);
    lemma_rot3(a.yz, b.zw, c.xz);
    assert(a.yz * bc.xw == (a.yz * b.s) * c.xw + (a.yz * b.xw) * c.s + (a.yz * b.xy) * c.yw - (a.yz * b.xyzw) * c.yz + (a.yz * b.xz) * c.zw - (a.yz * b.yw) * c.xy - (a.yz * b.yz) * c.xyzw - (a.yz * b.zw) * c.xz);
    lemma_mul_comm(a.zw, bc.xy);
    lemma_dist_xy_right(a.zw, b.s, c.xy, b.xw, c.yw, b.xy, c.s, b.xyzw, c.zw, b.xz, c.yz, b.yw, c.xw, b.yz, c.xz, b.zw, c.xyzw, bc.xy);
    lemma_rot3(a.zw, b.s, c.xy);
    lemma_rot3(a.zw, b.xw, c.yw);
    lemma_rot3(a.zw, b.xy, c.s);
    lemma_rot3(a.zw, b.xyzw, c.zw);
    lemma_rot3(a.zw, b.xz, c.yz);
    lemma_rot3(a.zw, b.yw, c.xw);
    lemma_rot3(a.zw, b.yz, c.xz);
    lemma_rot3(a.zw, b.zw, c.xyzw);
    assert(a.zw * bc.xy == (a.zw * b.s) * c.xy - (a.zw * b.xw) * c.yw + (a.zw * b.xy) * c.s - (a.zw * b.xyzw) * c.zw - (a.zw * b.xz) * c.yz + (a.zw * b.yw) * c.xw + (a.zw * b.yz) * c.xz - (a.zw * b.zw) * c.xyzw);
    assert(rv_mul(ab, c).xyzw == rv_mul(a, bc).xyzw);
}

/// Composition of rotations is associative: for all rotors `a`, `b`, `c`,
/// composing `a` with `b` and the result with `c` equals composing `a`
/// with the composition of `b` and `c`, entry by entry.
pub proof fn lemma_compose_assoc(a: RotorV, b: RotorV, c: RotorV)
    ensures
        rv_mul(rv_mul(a, b), c) == rv_mul(a, rv_mul(b, c)),
{
    let lhs = rv_mul(rv_mul(a, b), c);
    let rhs = rv_mul(a, rv_mul(b, c));

    lemma_assoc_s(a, b, c);
    lemma_assoc_xy(a, b, c);
    lemma_assoc_xz(a, b, c);
    lemma_assoc_xw(a, b, c);
    lemma_assoc_yz(a, b, c);
    lemma_assoc_yw(a, b, c);
    lemma_assoc_zw(a, b, c);
    lemma_assoc_xyzw(a, b, c);
    assert(lhs.den == rhs.den) by (nonlinear_arith)
        requires
            lhs.den == (a.den * b.den) * c.den,
            rhs.den == a.den * (b.den * c.den),
    ;
    assert(lhs =~= rhs);
}

} // verus!
