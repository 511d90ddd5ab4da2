//! The free-flying camera: a position, an accumulated free rotation, and a
//! separately clamped pitch.
//!
//! The camera keeps its xy-plane pitch apart from the freely accumulated
//! rotation so that the pitch can be clamped to a quarter turn either way
//! and "up" stays well defined.  The pitch is stored as an exact angle in
//! [`ANGLE_UNIT`]s of a turn; because the crate has no trigonometry, the
//! methods that need the pitch as a rotor take its half-angle pair from the
//! caller, who computes it outside (or picks an exactly unit pair through
//! [`HalfAngle::from_half_tangent`]).

use vstd::prelude::*;

use crate::motor::{Transform, tv_from_rotor, tv_mul, tv_translation};
use crate::rotor::{
    HalfAngle, Plane, Rotor, RotorV, lemma_mul_bounded, lemma_prod_bound, mul_ll, rv_bounded,
    rv_dir, rv_id, rv_mul, rv_rotate,
};
use crate::vec::{Ratio, RatioV, Vec4, Vec4V, v4_unit_w, v4_unit_x, v4_unit_y, v4_unit_z};

verus! {

/// Angle units per full turn: pitch angles are exact multiples of
/// 1/`ANGLE_UNIT` of a turn.
pub const ANGLE_UNIT: i64 = 0x1_0000_0000;

/// The clamp on the xy pitch: a quarter turn in angle units.
pub const PITCH_CLAMP: i64 = 0x4000_0000;

/// Bound on the entries of the accumulated rotation and of the supplied
/// pitch pair, so that their composition stays within the algebra's
/// operating range.
pub const CAMERA_ROTOR_LIMIT: i128 = 0x2000_0000;


/// One coordinate of the signed axis sum the held movement keys select.
#[verifier::rlimit(100)]
fn held_component(f: i128, u: i128, r: i128, a: i128, input: CameraInput) -> (s: i128)
    requires
        -(33 * 0x40_0000_0000_0000) <= f <= 33 * 0x40_0000_0000_0000,
        -(33 * 0x40_0000_0000_0000) <= u <= 33 * 0x40_0000_0000_0000,
        -(33 * 0x40_0000_0000_0000) <= r <= 33 * 0x40_0000_0000_0000,
        -(33 * 0x40_0000_0000_0000) <= a <= 33 * 0x40_0000_0000_0000,
    ensures
        s == held_sum(f as int, u as int, r as int, a as int, input),
        -(264 * 0x40_0000_0000_0000) <= s <= 264 * 0x40_0000_0000_0000,
{
    let t1: i128 = if input.move_forward {
        f
    } else {
        0
    };
    let t2: i128 = if input.move_back {
        f
    } else {
        0
    };
    let t3: i128 = if input.move_up {
        u
    } else {
        0
    };
    let t4: i128 = if input.move_down {
        u
    } else {
        0
    };
    let t5: i128 = if input.move_right {
        r
    } else {
        0
    };
    let t6: i128 = if input.move_left {
        r
    } else {
        0
    };
    let t7: i128 = if input.move_ana {
        a
    } else {
        0
    };
    let t8: i128 = if input.move_kata {
        a
    } else {
        0
    };
    t1 - t2 + t3 - t4 + t5 - t6 + t7 - t8
}

/// Applies one frame of held movement keys: the position plus the selected
/// axis images scaled by the frame distance.  The four axis images share
/// one denominator.
#[verifier::rlimit(100)]
fn apply_movement(
    pos: Vec4,
    fw: Vec4,
    up: Vec4,
    rt: Vec4,
    an: Vec4,
    amt_num: i128,
    amt_den: i128,
    input: CameraInput,
) -> (r: Vec4)
    requires
        -0x10_0000 <= pos.x <= 0x10_0000,
        -0x10_0000 <= pos.y <= 0x10_0000,
        -0x10_0000 <= pos.z <= 0x10_0000,
        -0x10_0000 <= pos.w <= 0x10_0000,
        0 < pos.den <= 0x100,
        0 < fw.den <= 0x40_0000_0000_0000,
        up.den == fw.den,
        rt.den == fw.den,
        an.den == fw.den,
        -(33 * 0x40_0000_0000_0000) <= fw.x <= 33 * 0x40_0000_0000_0000,
        -(33 * 0x40_0000_0000_0000) <= fw.y <= 33 * 0x40_0000_0000_0000,
        -(33 * 0x40_0000_0000_0000) <= fw.z <= 33 * 0x40_0000_0000_0000,
        -(33 * 0x40_0000_0000_0000) <= fw.w <= 33 * 0x40_0000_0000_0000,
        -(33 * 0x40_0000_0000_0000) <= up.x <= 33 * 0x40_0000_0000_0000,
        -(33 * 0x40_0000_0000_0000) <= up.y <= 33 * 0x40_0000_0000_0000,
        -(33 * 0x40_0000_0000_0000) <= up.z <= 33 * 0x40_0000_0000_0000,
        -(33 * 0x40_0000_0000_0000) <= up.w <= 33 * 0x40_0000_0000_0000,
        -(33 * 0x40_0000_0000_0000) <= rt.x <= 33 * 0x40_0000_0000_0000,
        -(33 * 0x40_0000_0000_0000) <= rt.y <= 33 * 0x40_0000_0000_0000,
        -(33 * 0x40_0000_0000_0000) <= rt.z <= 33 * 0x40_0000_0000_0000,
        -(33 * 0x40_0000_0000_0000) <= rt.w <= 33 * 0x40_0000_0000_0000,
        -(33 * 0x40_0000_0000_0000) <= an.x <= 33 * 0x40_0000_0000_0000,
        -(33 * 0x40_0000_0000_0000) <= an.y <= 33 * 0x40_0000_0000_0000,
        -(33 * 0x40_0000_0000_0000) <= an.z <= 33 * 0x40_0000_0000_0000,
        -(33 * 0x40_0000_0000_0000) <= an.w <= 33 * 0x40_0000_0000_0000,
        -0x2_0000 <= amt_num <= 0x2_0000,
        0 < amt_den <= 0x1_0000,
    ensures
        r@ == moved_position(
            pos@,
            fw@,
            up@,
            rt@,
            an@,
            RatioV { num: amt_num as int, den: amt_den as int },
            input,
        ),
        r.den > 0,
{
    proof {
        lemma_prod_bound(fw.den as int, amt_den as int, 0x40_0000_0000_0000, 0x1_0000);
    }
    let scale: i128 = mul_ll(fw.den, amt_den);
    let dx: i128 = held_component(fw.x, up.x, rt.x, an.x, input);
    let dy: i128 = held_component(fw.y, up.y, rt.y, an.y, input);
    let dz: i128 = held_component(fw.z, up.z, rt.z, an.z, input);
    let dw: i128 = held_component(fw.w, up.w, rt.w, an.w, input);
        Vec4 {
            x: mul_wide(scale, pos.x) + mul3w(dx, amt_num, pos.den),
            y: mul_wide(scale, pos.y) + mul3w(dy, amt_num, pos.den),
            z: mul_wide(scale, pos.z) + mul3w(dz, amt_num, pos.den),
            w: mul_wide(scale, pos.w) + mul3w(dw, amt_num, pos.den),
            den: mul_wide(scale, pos.den),
        }

}

pub struct Camera {
    pub position: Vec4,
    pub main_rotation: Rotor,
    /// The xy pitch in angle units, clamped to `[-PITCH_CLAMP, PITCH_CLAMP]`.
    pub xy_rotation: i64,
    /// Units of distance per second of held movement keys.
    pub move_speed: Ratio,
    /// Turns per second of held arrow keys; the shell derives each frame's
    /// step pair from it.
    pub rotation_speed: Ratio,
}

impl Camera {
    /// The pitch pair the caller supplies matches the camera's operating
    /// range.
    pub open spec fn pitch_pair_ok(half: HalfAngle) -> bool {
        &&& half.wf()
        &&& -CAMERA_ROTOR_LIMIT <= half.cos <= CAMERA_ROTOR_LIMIT
        &&& -CAMERA_ROTOR_LIMIT <= half.sin <= CAMERA_ROTOR_LIMIT
        &&& half.den <= CAMERA_ROTOR_LIMIT
    }

    /// A camera at `position`, looking along the identity rotation, with
    /// the default speeds.
    pub fn new(position: Vec4) -> (r: Camera)
        requires
            position.den > 0,
        ensures
            r.position == position,
            r.main_rotation@ == rv_id(),
            r.xy_rotation == 0,
            r.move_speed@ == (RatioV { num: 2, den: 1 }),
            r.rotation_speed@ == (RatioV { num: 1, den: 2 }),
    {
        Camera {
            position,
            main_rotation: Rotor::identity(),
            xy_rotation: 0,
            move_speed: Ratio { num: 2, den: 1 },
            rotation_speed: Ratio { num: 1, den: 2 },
        }
    }

    /// The camera's full rotation: the accumulated free rotation followed
    /// by the xy pitch.  `xy_half` must be the half-angle pair of the pitch
    /// that `xy_rotation` denotes; that correspondence is trigonometric and
    /// is the caller's obligation.
    pub fn rotation(&self, xy_half: HalfAngle) -> (r: Rotor)
        requires
            rv_bounded(self.main_rotation@, CAMERA_ROTOR_LIMIT as int),
            Camera::pitch_pair_ok(xy_half),
        ensures
            r@ == rv_mul(
                self.main_rotation@,
                rv_rotate(Plane::Xy, xy_half.cos as int, xy_half.sin as int, xy_half.den as int),
            ),
            rv_bounded(r@, 8 * ((CAMERA_ROTOR_LIMIT * CAMERA_ROTOR_LIMIT) as int)),
    {
        let pitch: Rotor = Rotor::rotate_xy(xy_half);
        proof {
            lemma_mul_bounded(
                self.main_rotation@,
                pitch@,
                CAMERA_ROTOR_LIMIT as int,
                CAMERA_ROTOR_LIMIT as int,
            );
        }
        self.main_rotation.and_then(pitch)
    }

    /// The camera's world placement: translate to its position, and apply
    /// its full rotation there.
    pub fn transform(&self, xy_half: HalfAngle) -> (r: Transform)
        requires
            rv_bounded(self.main_rotation@, CAMERA_ROTOR_LIMIT as int),
            Camera::pitch_pair_ok(xy_half),
            0 < self.position.den <= 0x1000_0000_0000_0000,
            -0x2000_0000_0000_0000 <= self.position.x <= 0x2000_0000_0000_0000,
            -0x2000_0000_0000_0000 <= self.position.y <= 0x2000_0000_0000_0000,
            -0x2000_0000_0000_0000 <= self.position.z <= 0x2000_0000_0000_0000,
            -0x2000_0000_0000_0000 <= self.position.w <= 0x2000_0000_0000_0000,
        ensures
            r@ == tv_mul(
                tv_translation(self.position@),
                tv_from_rotor(
                    rv_mul(
                        self.main_rotation@,
                        rv_rotate(
                            Plane::Xy,
                            xy_half.cos as int,
                            xy_half.sin as int,
                            xy_half.den as int,
                        ),
                    ),
                ),
            ),
            r.den > 0,
    {
        let rot: Rotor = self.rotation(xy_half);
        Transform::translation(self.position).and_then(Transform::from_rotor(rot))
    }

    /// The pitch after turning by `delta` angle units, clamped to a quarter
    /// turn either way.
    pub fn clamped_pitch(&self, delta: i64) -> (r: i64)
        requires
            -PITCH_CLAMP <= self.xy_rotation <= PITCH_CLAMP,
            -ANGLE_UNIT <= delta <= ANGLE_UNIT,
        ensures
            r == if self.xy_rotation + delta > PITCH_CLAMP {
                PITCH_CLAMP as int
            } else if self.xy_rotation + delta < -PITCH_CLAMP {
                -PITCH_CLAMP as int
            } else {
                self.xy_rotation + delta
            },
            -PITCH_CLAMP <= r <= PITCH_CLAMP,
    {
        let raw: i64 = self.xy_rotation + delta;
        if raw > PITCH_CLAMP {
            PITCH_CLAMP
        } else if raw < -PITCH_CLAMP {
            -PITCH_CLAMP
        } else {
            raw
        }
    }

    /// One frame of interactive camera motion.  The held movement keys
    /// push the position along the camera's four axis images (doubled
    /// speed while shift is held); with ctrl the arrow keys turn the free
    /// rotation in the xw and zw planes, without it the left and right
    /// arrows turn it in the xz plane while up and down move the pitch;
    /// the pitch is clamped to a quarter turn either way.  `input.xy_half`
    /// must be the half-angle pair of the current pitch and
    /// `input.step_half` must match `input.step_units`; both
    /// correspondences are trigonometric and the caller's obligation.
    #[verifier::rlimit(100)]
    pub fn update(&mut self, input: CameraInput)
        requires
            rv_bounded(old(self).main_rotation@, UPDATE_LIMIT as int),
            -PITCH_CLAMP <= old(self).xy_rotation <= PITCH_CLAMP,
            -0x10_0000 <= old(self).position.x <= 0x10_0000,
            -0x10_0000 <= old(self).position.y <= 0x10_0000,
            -0x10_0000 <= old(self).position.z <= 0x10_0000,
            -0x10_0000 <= old(self).position.w <= 0x10_0000,
            0 < old(self).position.den <= 0x100,
            0 <= old(self).move_speed.num <= 0x100,
            0 < old(self).move_speed.den <= 0x100,
            0 <= input.ts.num <= 0x100,
            0 < input.ts.den <= 0x100,
            -UPDATE_LIMIT <= input.xy_half.cos <= UPDATE_LIMIT,
            -UPDATE_LIMIT <= input.xy_half.sin <= UPDATE_LIMIT,
            0 < input.xy_half.den <= UPDATE_LIMIT,
            -UPDATE_LIMIT <= input.step_half.cos <= UPDATE_LIMIT,
            -UPDATE_LIMIT <= input.step_half.sin <= UPDATE_LIMIT,
            0 < input.step_half.den <= UPDATE_LIMIT,
            -ANGLE_UNIT <= input.step_units <= ANGLE_UNIT,
        ensures
            final(self).position@ == moved_position(
                old(self).position@,
                rv_dir(full_rotation(old(self).main_rotation@, input.xy_half), v4_unit_x()),
                rv_dir(full_rotation(old(self).main_rotation@, input.xy_half), v4_unit_y()),
                rv_dir(full_rotation(old(self).main_rotation@, input.xy_half), v4_unit_z()),
                rv_dir(full_rotation(old(self).main_rotation@, input.xy_half), v4_unit_w()),
                frame_distance(old(self).move_speed@, input.ts@, input.shift),
                input,
            ),
            final(self).position.den > 0,
            final(self).main_rotation@ == stepped_rotation(
                old(self).main_rotation@,
                input.step_half.cos as int,
                input.step_half.sin as int,
                input.step_half.den as int,
                input,
            ),
            final(self).xy_rotation == stepped_pitch(
                old(self).xy_rotation as int,
                input.step_units as int,
                input,
            ),
            -PITCH_CLAMP <= final(self).xy_rotation <= PITCH_CLAMP,
            final(self).move_speed == old(self).move_speed,
            final(self).rotation_speed == old(self).rotation_speed,
    {
        // The distance moved this frame.
        proof {
            lemma_prod_bound(
                self.move_speed.num as int,
                input.ts.num as int,
                0x100,
                0x100,
            );
            lemma_prod_bound(
                self.move_speed.den as int,
                input.ts.den as int,
                0x100,
                0x100,
            );
        }
        let base: i128 = mul_ll(self.move_speed.num, input.ts.num);
        let amt_num: i128 = if input.shift {
            2 * base
        } else {
            base
        };
        let amt_den: i128 = mul_ll(self.move_speed.den, input.ts.den);
        // The axis images of the current full rotation.
        let rot: Rotor = self.rotation(input.xy_half);
        proof {
            lemma_mul_bounded(
                self.main_rotation@,
                rv_rotate(
                    Plane::Xy,
                    input.xy_half.cos as int,
                    input.xy_half.sin as int,
                    input.xy_half.den as int,
                ),
                UPDATE_LIMIT as int,
                UPDATE_LIMIT as int,
            );
            lemma_axis_entry_bound(rot@, v4_unit_x(), 0x800_0000);
            lemma_axis_entry_bound(rot@, v4_unit_y(), 0x800_0000);
            lemma_axis_entry_bound(rot@, v4_unit_z(), 0x800_0000);
            lemma_axis_entry_bound(rot@, v4_unit_w(), 0x800_0000);
        }
        let fw: Vec4 = rot.forward();
        let up: Vec4 = rot.up();
        let rt: Vec4 = rot.right();
        let an: Vec4 = rot.ana();
        proof {
            assert((RatioV { num: amt_num as int, den: amt_den as int }) =~= frame_distance(
                self.move_speed@,
                input.ts@,
                input.shift,
            ));
        }
        self.position = apply_movement(
            self.position,
            fw,
            up,
            rt,
            an,
            amt_num,
            amt_den,
            input,
        );
        // The arrow keys: free rotation, or the pitch when ctrl is not
        // held.
        let step: HalfAngle = input.step_half;
        let neg: HalfAngle = step.negated();
        let ghost m0: int = UPDATE_LIMIT as int;
        if input.ctrl {
            if input.turn_right {
                proof {
                    lemma_mul_bounded(
                        self.main_rotation@,
                        rv_rotate(Plane::Xw, step.cos as int, step.sin as int, step.den as int),
                        m0,
                        m0,
                    );
                }
                self.main_rotation = self.main_rotation.and_then(Rotor::rotate_xw(step));
            }
            proof {
                assert(rv_bounded(self.main_rotation@, 8 * (m0 * m0)));
            }
            if input.turn_left {
                proof {
                    lemma_mul_bounded(
                        self.main_rotation@,
                        rv_rotate(Plane::Xw, neg.cos as int, neg.sin as int, neg.den as int),
                        8 * (m0 * m0),
                        m0,
                    );
                }
                self.main_rotation = self.main_rotation.and_then(Rotor::rotate_xw(neg));
            }
            proof {
                assert(rv_bounded(self.main_rotation@, 8 * ((8 * (m0 * m0)) * m0)));
            }
            if input.turn_up {
                proof {
                    lemma_mul_bounded(
                        self.main_rotation@,
                        rv_rotate(Plane::Zw, step.cos as int, step.sin as int, step.den as int),
                        8 * ((8 * (m0 * m0)) * m0),
                        m0,
                    );
                }
                self.main_rotation = self.main_rotation.and_then(Rotor::rotate_zw(step));
            }
            proof {
                assert(rv_bounded(self.main_rotation@, 8 * ((8 * ((8 * (m0 * m0)) * m0)) * m0)));
            }
            if input.turn_down {
                proof {
                    lemma_mul_bounded(
                        self.main_rotation@,
                        rv_rotate(Plane::Zw, neg.cos as int, neg.sin as int, neg.den as int),
                        8 * ((8 * ((8 * (m0 * m0)) * m0)) * m0),
                        m0,
                    );
                }
                self.main_rotation = self.main_rotation.and_then(Rotor::rotate_zw(neg));
            }
        } else {
            if input.turn_right {
                proof {
                    lemma_mul_bounded(
                        self.main_rotation@,
                        rv_rotate(Plane::Xz, step.cos as int, step.sin as int, step.den as int),
                        m0,
                        m0,
                    );
                }
                self.main_rotation = self.main_rotation.and_then(Rotor::rotate_xz(step));
            }
            proof {
                assert(rv_bounded(self.main_rotation@, 8 * (m0 * m0)));
            }
            if input.turn_left {
                proof {
                    lemma_mul_bounded(
                        self.main_rotation@,
                        rv_rotate(Plane::Xz, neg.cos as int, neg.sin as int, neg.den as int),
                        8 * (m0 * m0),
                        m0,
                    );
                }
                self.main_rotation = self.main_rotation.and_then(Rotor::rotate_xz(neg));
            }
        }
        let delta: i64 = (if !input.ctrl && input.turn_up {
            input.step_units
        } else {
            0
        }) - (if !input.ctrl && input.turn_down {
            input.step_units
        } else {
            0
        });
        self.xy_rotation = self.clamped_pitch(delta);
    }
}


/// One frame of camera input: which movement and rotation keys are held,
/// the frame time, and the trigonometric data the crate cannot compute
/// itself.
#[derive(Clone, Copy, Debug)]
pub struct CameraInput {
    pub shift: bool,
    pub ctrl: bool,
    pub move_forward: bool,
    pub move_back: bool,
    pub move_up: bool,
    pub move_down: bool,
    pub move_right: bool,
    pub move_left: bool,
    pub move_ana: bool,
    pub move_kata: bool,
    pub turn_right: bool,
    pub turn_left: bool,
    pub turn_up: bool,
    pub turn_down: bool,
    /// The frame time, as a fraction of a second.
    pub ts: Ratio,
    /// Half-angle pair of the pitch that the camera's `xy_rotation`
    /// currently denotes; trigonometric, so the caller's obligation.
    pub xy_half: HalfAngle,
    /// Half-angle pair of this frame's rotation step: the rotation speed
    /// (turns per second) times a full turn times the frame time.
    pub step_half: HalfAngle,
    /// The same rotation step in angle units, for the pitch.
    pub step_units: i64,
}

/// Bound on the camera state and input entries accepted by
/// [`Camera::update`], so that one frame of exact arithmetic stays within
/// `i128`.
pub const UPDATE_LIMIT: i128 = 0x1000;

/// The camera's full rotation this frame: the accumulated free rotation
/// followed by the pitch whose half-angle pair is `h`.
pub open spec fn full_rotation(main: RotorV, h: HalfAngle) -> RotorV {
    rv_mul(main, rv_rotate(Plane::Xy, h.cos as int, h.sin as int, h.den as int))
}

/// The distance moved this frame: the movement speed (doubled while shift
/// is held) times the frame time.
pub open spec fn frame_distance(ms: RatioV, ts: RatioV, shift: bool) -> RatioV {
    RatioV {
        num: if shift {
            2 * (ms.num * ts.num)
        } else {
            ms.num * ts.num
        },
        den: ms.den * ts.den,
    }
}

/// The signed sum of one coordinate of the four axis images, selected by
/// the held movement keys.
pub open spec fn held_sum(f: int, u: int, r: int, a: int, i: CameraInput) -> int {
    (if i.move_forward {
        f
    } else {
        0
    }) - (if i.move_back {
        f
    } else {
        0
    }) + (if i.move_up {
        u
    } else {
        0
    }) - (if i.move_down {
        u
    } else {
        0
    }) + (if i.move_right {
        r
    } else {
        0
    }) - (if i.move_left {
        r
    } else {
        0
    }) + (if i.move_ana {
        a
    } else {
        0
    }) - (if i.move_kata {
        a
    } else {
        0
    })
}

/// Where one frame of held movement keys takes the camera: the old
/// position plus the selected axis images scaled by the frame distance.
/// All four axis images share the denominator `f.den`.
pub open spec fn moved_position(
    pos: Vec4V,
    f: Vec4V,
    u: Vec4V,
    r: Vec4V,
    a: Vec4V,
    dist: RatioV,
    i: CameraInput,
) -> Vec4V {
    Vec4V {
        x: (f.den * dist.den) * pos.x + (held_sum(f.x, u.x, r.x, a.x, i) * dist.num) * pos.den,
        y: (f.den * dist.den) * pos.y + (held_sum(f.y, u.y, r.y, a.y, i) * dist.num) * pos.den,
        z: (f.den * dist.den) * pos.z + (held_sum(f.z, u.z, r.z, a.z, i) * dist.num) * pos.den,
        w: (f.den * dist.den) * pos.w + (held_sum(f.w, u.w, r.w, a.w, i) * dist.num) * pos.den,
        den: (f.den * dist.den) * pos.den,
    }
}

/// How one frame of held arrow keys turns the accumulated free rotation:
/// with ctrl the arrows turn in the xw and zw planes; without it the left
/// and right arrows turn in the xz plane (up and down move the pitch
/// instead).  `c`, `s`, `d` are the half-angle pair of the step.
pub open spec fn stepped_rotation(main: RotorV, c: int, s: int, d: int, i: CameraInput) -> RotorV {
    if i.ctrl {
        let m1 = if i.turn_right {
            rv_mul(main, rv_rotate(Plane::Xw, c, s, d))
        } else {
            main
        };
        let m2 = if i.turn_left {
            rv_mul(m1, rv_rotate(Plane::Xw, c, -s, d))
        } else {
            m1
        };
        let m3 = if i.turn_up {
            rv_mul(m2, rv_rotate(Plane::Zw, c, s, d))
        } else {
            m2
        };
        if i.turn_down {
            rv_mul(m3, rv_rotate(Plane::Zw, c, -s, d))
        } else {
            m3
        }
    } else {
        let m1 = if i.turn_right {
            rv_mul(main, rv_rotate(Plane::Xz, c, s, d))
        } else {
            main
        };
        if i.turn_left {
            rv_mul(m1, rv_rotate(Plane::Xz, c, -s, d))
        } else {
            m1
        }
    }
}

/// The pitch after one frame: moved by the step for the up and down arrows
/// (when ctrl does not redirect them to the zw plane) and afterwards
/// clamped to a quarter turn either way.
pub open spec fn stepped_pitch(old_pitch: int, step: int, i: CameraInput) -> int {
    let raw = old_pitch + (if !i.ctrl && i.turn_up {
        step
    } else {
        0
    }) - (if !i.ctrl && i.turn_down {
        step
    } else {
        0
    });
    if raw > PITCH_CLAMP {
        PITCH_CLAMP as int
    } else if raw < -PITCH_CLAMP {
        -PITCH_CLAMP as int
    } else {
        raw
    }
}

/// Entry bounds for the image of a canonical basis direction under a
/// bounded rotor: every numerator of the image is at most `33 * (m * m)`,
/// and its denominator is `r.den * r.den`.
pub proof fn lemma_axis_entry_bound(r: RotorV, v: Vec4V, m: int)
    requires
        rv_bounded(r, m),
        -1 <= v.x <= 1,
        -1 <= v.y <= 1,
        -1 <= v.z <= 1,
        -1 <= v.w <= 1,
        v.den == 1,
    ensures
        -(33 * (m * m)) <= rv_dir(r, v).x <= 33 * (m * m),
        -(33 * (m * m)) <= rv_dir(r, v).y <= 33 * (m * m),
        -(33 * (m * m)) <= rv_dir(r, v).z <= 33 * (m * m),
        -(33 * (m * m)) <= rv_dir(r, v).w <= 33 * (m * m),
        0 < rv_dir(r, v).den <= m * m,
{
    lemma_prod_bound(v.w, r.s, 1, m);
    lemma_prod_bound(v.w * r.s, r.xw, m, m);
    lemma_prod_bound(v.w, r.xy, 1, m);
    lemma_prod_bound(v.w * r.xy, r.yw, m, m);
    lemma_prod_bound(v.w, r.xyzw, 1, m);
    lemma_prod_bound(v.w * r.xyzw, r.yz, m, m);
    lemma_prod_bound(v.w, r.xz, 1, m);
    lemma_prod_bound(v.w * r.xz, r.zw, m, m);
    lemma_prod_bound(v.x, r.xw, 1, m);
    lemma_prod_bound(v.x * r.xw, r.xw, m, m);
    lemma_prod_bound(v.x, r.xy, 1, m);
    lemma_prod_bound(v.x * r.xy, r.xy, m, m);
    lemma_prod_bound(v.x, r.xyzw, 1, m);
    lemma_prod_bound(v.x * r.xyzw, r.xyzw, m, m);
    lemma_prod_bound(v.x, r.xz, 1, m);
    lemma_prod_bound(v.x * r.xz, r.xz, m, m);
    lemma_prod_bound(v.y, r.s, 1, m);
    lemma_prod_bound(v.y * r.s, r.xy, m, m);
    lemma_prod_bound(v.y, r.xw, 1, m);
    lemma_prod_bound(v.y * r.xw, r.yw, m, m);
    lemma_prod_bound(v.y, r.xyzw, 1, m);
    lemma_prod_bound(v.y * r.xyzw, r.zw, m, m);
    lemma_prod_bound(v.y, r.xz, 1, m);
    lemma_prod_bound(v.y * r.xz, r.yz, m, m);
    lemma_prod_bound(v.z, r.s, 1, m);
    lemma_prod_bound(v.z * r.s, r.xz, m, m);
    lemma_prod_bound(v.z, r.xw, 1, m);
    lemma_prod_bound(v.z * r.xw, r.zw, m, m);
    lemma_prod_bound(v.z, r.xy, 1, m);
    lemma_prod_bound(v.z * r.xy, r.yz, m, m);
    lemma_prod_bound(v.z, r.xyzw, 1, m);
    lemma_prod_bound(v.z * r.xyzw, r.yw, m, m);
    lemma_prod_bound(r.den, r.den, m, m);
    lemma_prod_bound(r.den * r.den, v.x, m * m, 1);
    lemma_prod_bound(v.w, r.s, 1, m);
    lemma_prod_bound(v.w * r.s, r.yw, m, m);
    lemma_prod_bound(v.w, r.xw, 1, m);
    lemma_prod_bound(v.w * r.xw, r.xy, m, m);
    lemma_prod_bound(v.w, r.xyzw, 1, m);
    lemma_prod_bound(v.w * r.xyzw, r.xz, m, m);
    lemma_prod_bound(v.w, r.yz, 1, m);
    lemma_prod_bound(v.w * r.yz, r.zw, m, m);
    lemma_prod_bound(v.x, r.s, 1, m);
    lemma_prod_bound(v.x * r.s, r.xy, m, m);
    lemma_prod_bound(v.x, r.xw, 1, m);
    lemma_prod_bound(v.x * r.xw, r.yw, m, m);
    lemma_prod_bound(v.x, r.xyzw, 1, m);
    lemma_prod_bound(v.x * r.xyzw, r.zw, m, m);
    lemma_prod_bound(v.x, r.xz, 1, m);
    lemma_prod_bound(v.x * r.xz, r.yz, m, m);
    lemma_prod_bound(v.y, r.xy, 1, m);
    lemma_prod_bound(v.y * r.xy, r.xy, m, m);
    lemma_prod_bound(v.y, r.xyzw, 1, m);
    lemma_prod_bound(v.y * r.xyzw, r.xyzw, m, m);
    lemma_prod_bound(v.y, r.yw, 1, m);
    lemma_prod_bound(v.y * r.yw, r.yw, m, m);
    lemma_prod_bound(v.y, r.yz, 1, m);
    lemma_prod_bound(v.y * r.yz, r.yz, m, m);
    lemma_prod_bound(v.z, r.s, 1, m);
    lemma_prod_bound(v.z * r.s, r.yz, m, m);
    lemma_prod_bound(v.z, r.xw, 1, m);
    lemma_prod_bound(v.z * r.xw, r.xyzw, m, m);
    lemma_prod_bound(v.z, r.xy, 1, m);
    lemma_prod_bound(v.z * r.xy, r.xz, m, m);
    lemma_prod_bound(v.z, r.yw, 1, m);
    lemma_prod_bound(v.z * r.yw, r.zw, m, m);
    lemma_prod_bound(r.den, r.den, m, m);
    lemma_prod_bound(r.den * r.den, v.y, m * m, 1);
    lemma_prod_bound(v.w, r.s, 1, m);
    lemma_prod_bound(v.w * r.s, r.zw, m, m);
    lemma_prod_bound(v.w, r.xw, 1, m);
    lemma_prod_bound(v.w * r.xw, r.xz, m, m);
    lemma_prod_bound(v.w, r.xy, 1, m);
    lemma_prod_bound(v.w * r.xy, r.xyzw, m, m);
    lemma_prod_bound(v.w, r.yw, 1, m);
    lemma_prod_bound(v.w * r.yw, r.yz, m, m);
    lemma_prod_bound(v.x, r.s, 1, m);
    lemma_prod_bound(v.x * r.s, r.xz, m, m);
    lemma_prod_bound(v.x, r.xw, 1, m);
    lemma_prod_bound(v.x * r.xw, r.zw, m, m);
    lemma_prod_bound(v.x, r.xy, 1, m);
    lemma_prod_bound(v.x * r.xy, r.yz, m, m);
    lemma_prod_bound(v.x, r.xyzw, 1, m);
    lemma_prod_bound(v.x * r.xyzw, r.yw, m, m);
    lemma_prod_bound(v.y, r.s, 1, m);
    lemma_prod_bound(v.y * r.s, r.yz, m, m);
    lemma_prod_bound(v.y, r.xw, 1, m);
    lemma_prod_bound(v.y * r.xw, r.xyzw, m, m);
    lemma_prod_bound(v.y, r.xy, 1, m);
    lemma_prod_bound(v.y * r.xy, r.xz, m, m);
    lemma_prod_bound(v.y, r.yw, 1, m);
    lemma_prod_bound(v.y * r.yw, r.zw, m, m);
    lemma_prod_bound(v.z, r.xyzw, 1, m);
    lemma_prod_bound(v.z * r.xyzw, r.xyzw, m, m);
    lemma_prod_bound(v.z, r.xz, 1, m);
    lemma_prod_bound(v.z * r.xz, r.xz, m, m);
    lemma_prod_bound(v.z, r.yz, 1, m);
    lemma_prod_bound(v.z * r.yz, r.yz, m, m);
    lemma_prod_bound(v.z, r.zw, 1, m);
    lemma_prod_bound(v.z * r.zw, r.zw, m, m);
    lemma_prod_bound(r.den, r.den, m, m);
    lemma_prod_bound(r.den * r.den, v.z, m * m, 1);
    lemma_prod_bound(v.w, r.xw, 1, m);
    lemma_prod_bound(v.w * r.xw, r.xw, m, m);
    lemma_prod_bound(v.w, r.xyzw, 1, m);
    lemma_prod_bound(v.w * r.xyzw, r.xyzw, m, m);
    lemma_prod_bound(v.w, r.yw, 1, m);
    lemma_prod_bound(v.w * r.yw, r.yw, m, m);
    lemma_prod_bound(v.w, r.zw, 1, m);
    lemma_prod_bound(v.w * r.zw, r.zw, m, m);
    lemma_prod_bound(v.x, r.s, 1, m);
    lemma_prod_bound(v.x * r.s, r.xw, m, m);
    lemma_prod_bound(v.x, r.xy, 1, m);
    lemma_prod_bound(v.x * r.xy, r.yw, m, m);
    lemma_prod_bound(v.x, r.xyzw, 1, m);
    lemma_prod_bound(v.x * r.xyzw, r.yz, m, m);
    lemma_prod_bound(v.x, r.xz, 1, m);
    lemma_prod_bound(v.x * r.xz, r.zw, m, m);
    lemma_prod_bound(v.y, r.s, 1, m);
    lemma_prod_bound(v.y * r.s, r.yw, m, m);
    lemma_prod_bound(v.y, r.xw, 1, m);
    lemma_prod_bound(v.y * r.xw, r.xy, m, m);
    lemma_prod_bound(v.y, r.xyzw, 1, m);
    lemma_prod_bound(v.y * r.xyzw, r.xz, m, m);
    lemma_prod_bound(v.y, r.yz, 1, m);
    lemma_prod_bound(v.y * r.yz, r.zw, m, m);
    lemma_prod_bound(v.z, r.s, 1, m);
    lemma_prod_bound(v.z * r.s, r.zw, m, m);
    lemma_prod_bound(v.z, r.xw, 1, m);
    lemma_prod_bound(v.z * r.xw, r.xz, m, m);
    lemma_prod_bound(v.z, r.xy, 1, m);
    lemma_prod_bound(v.z * r.xy, r.xyzw, m, m);
    lemma_prod_bound(v.z, r.yw, 1, m);
    lemma_prod_bound(v.z * r.yw, r.yz, m, m);
    lemma_prod_bound(r.den, r.den, m, m);
    lemma_prod_bound(r.den * r.den, v.w, m * m, 1);
    lemma_prod_bound(r.den * r.den, v.den, m * m, 1);
    lemma_prod_bound(r.den * r.den, v.den, m * m, 1);
    assert(rv_dir(r, v).x == -2 * (v.w * r.s * r.xw) + 2 * (v.w * r.xy * r.yw) - 2 * (v.w * r.xyzw * r.yz) + 2 * (v.w * r.xz * r.zw) - 2 * (v.x * r.xw * r.xw) - 2 * (v.x * r.xy * r.xy) - 2 * (v.x * r.xyzw * r.xyzw) - 2 * (v.x * r.xz * r.xz) - 2 * (v.y * r.s * r.xy) - 2 * (v.y * r.xw * r.yw) - 2 * (v.y * r.xyzw * r.zw) - 2 * (v.y * r.xz * r.yz) - 2 * (v.z * r.s * r.xz) - 2 * (v.z * r.xw * r.zw) + 2 * (v.z * r.xy * r.yz) + 2 * (v.z * r.xyzw * r.yw) + r.den * r.den * v.x);
    assert(rv_dir(r, v).y == -2 * (v.w * r.s * r.yw) - 2 * (v.w * r.xw * r.xy) + 2 * (v.w * r.xyzw * r.xz) + 2 * (v.w * r.yz * r.zw) + 2 * (v.x * r.s * r.xy) - 2 * (v.x * r.xw * r.yw) + 2 * (v.x * r.xyzw * r.zw) - 2 * (v.x * r.xz * r.yz) - 2 * (v.y * r.xy * r.xy) - 2 * (v.y * r.xyzw * r.xyzw) - 2 * (v.y * r.yw * r.yw) - 2 * (v.y * r.yz * r.yz) - 2 * (v.z * r.s * r.yz) - 2 * (v.z * r.xw * r.xyzw) - 2 * (v.z * r.xy * r.xz) - 2 * (v.z * r.yw * r.zw) + r.den * r.den * v.y);
    assert(rv_dir(r, v).z == -2 * (v.w * r.s * r.zw) - 2 * (v.w * r.xw * r.xz) - 2 * (v.w * r.xy * r.xyzw) - 2 * (v.w * r.yw * r.yz) + 2 * (v.x * r.s * r.xz) - 2 * (v.x * r.xw * r.zw) + 2 * (v.x * r.xy * r.yz) - 2 * (v.x * r.xyzw * r.yw) + 2 * (v.y * r.s * r.yz) + 2 * (v.y * r.xw * r.xyzw) - 2 * (v.y * r.xy * r.xz) - 2 * (v.y * r.yw * r.zw) - 2 * (v.z * r.xyzw * r.xyzw) - 2 * (v.z * r.xz * r.xz) - 2 * (v.z * r.yz * r.yz) - 2 * (v.z * r.zw * r.zw) + r.den * r.den * v.z);
    assert(rv_dir(r, v).w == -2 * (v.w * r.xw * r.xw) - 2 * (v.w * r.xyzw * r.xyzw) - 2 * (v.w * r.yw * r.yw) - 2 * (v.w * r.zw * r.zw) + 2 * (v.x * r.s * r.xw) + 2 * (v.x * r.xy * r.yw) + 2 * (v.x * r.xyzw * r.yz) + 2 * (v.x * r.xz * r.zw) + 2 * (v.y * r.s * r.yw) - 2 * (v.y * r.xw * r.xy) - 2 * (v.y * r.xyzw * r.xz) + 2 * (v.y * r.yz * r.zw) + 2 * (v.z * r.s * r.zw) - 2 * (v.z * r.xw * r.xz) + 2 * (v.z * r.xy * r.xyzw) - 2 * (v.z * r.yw * r.yz) + r.den * r.den * v.w);
    assert(rv_dir(r, v).den == r.den * r.den * v.den);
}

/// Multiplies a wide value by a narrow one; for the position update, whose
/// left factors have already absorbed one or two denominators.
fn mul_wide(a: i128, b: i128) -> (r: i128)
    requires
        -0x4000_0000_0000_0000_0000_0000 <= a <= 0x4000_0000_0000_0000_0000_0000,
        -0x4000_0000 <= b <= 0x4000_0000,
    ensures
        r == a * b,
        -0x1000_0000_0000_0000_0000_0000_0000_0000 <= r <= 0x1000_0000_0000_0000_0000_0000_0000_0000,
        (a > 0 && b > 0) ==> r > 0,
{
    proof {
        assert((-0x1000_0000_0000_0000_0000_0000_0000_0000 <= a * b
            <= 0x1000_0000_0000_0000_0000_0000_0000_0000) && ((a > 0 && b > 0) ==> a * b > 0))
            by (nonlinear_arith)
            requires
                -0x4000_0000_0000_0000_0000_0000 <= a <= 0x4000_0000_0000_0000_0000_0000,
                -0x4000_0000 <= b <= 0x4000_0000,
        ;
    }
    a * b
}

/// Multiplies a held-key axis sum by the frame distance numerator and the
/// position denominator.
fn mul3w(a: i128, b: i128, c: i128) -> (r: i128)
    requires
        -0x8000_0000_0000_0000 <= a <= 0x8000_0000_0000_0000,
        -0x80000 <= b <= 0x80000,
        -0x8000 <= c <= 0x8000,
    ensures
        r == (a * b) * c,
        -0x2_0000_0000_0000_0000_0000_0000 <= r <= 0x2_0000_0000_0000_0000_0000_0000,
{
    proof {
        assert((-0x2_0000_0000_0000_0000_0000_0000 <= (a * b) * c
            <= 0x2_0000_0000_0000_0000_0000_0000) && (-0x4_0000_0000_0000_0000_0000 <= a * b
            <= 0x4_0000_0000_0000_0000_0000)) by (nonlinear_arith)
            requires
                -0x8000_0000_0000_0000 <= a <= 0x8000_0000_0000_0000,
                -0x80000 <= b <= 0x80000,
                -0x8000 <= c <= 0x8000,
        ;
    }
    a * b * c
}


} // verus!
