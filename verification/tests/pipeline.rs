//! Checks of the verified pipeline decisions: buffer growth, render-target
//! sizing, camera blocks and the scene tables.

use hyperray::camera::{Camera, CameraInput, PITCH_CLAMP};
use hyperray::render::{
    PLANE_RECORD_BYTES, RenderData, RenderState, RenderTarget, SPHERE_RECORD_BYTES, ViewAxes,
};
use hyperray::rotor::{HalfAngle, Rotor};
use hyperray::scene::{Group, Hypersphere, Objects, Transform as Pose};
use hyperray::vec::{Ratio, Vec3, Vec4};

#[test]
fn degenerate_target_sizes_clamp_to_one() {
    let t = RenderTarget::new(0, 0);
    assert_eq!(t.size(), (1, 1));
    let mut t = RenderTarget::new(7, 9);
    assert_eq!(t.size(), (7, 9));
    let realloc = t.maybe_resize(0, 0);
    assert!(realloc);
    assert_eq!(t.size(), (1, 1));
}

#[test]
fn exact_target_sizes_are_kept() {
    let mut t = RenderTarget::new(640, 480);
    assert_eq!(t.size(), (640, 480));
    // Requesting the current size is a no-op.
    assert!(!t.maybe_resize(640, 480));
    assert_eq!(t.size(), (640, 480));
    assert!(t.maybe_resize(800, 600));
    assert_eq!(t.size(), (800, 600));
}

#[test]
fn buffers_grow_and_never_shrink() {
    let mut s = RenderState::new();
    assert_eq!(s.hyper_spheres_capacity, SPHERE_RECORD_BYTES);
    let n: usize = 10;
    let m: usize = 3;
    let k: usize = 7;
    let plan = s.update_hyper_spheres(n).unwrap();
    assert_eq!(plan.grow_to, Some(10 * SPHERE_RECORD_BYTES));
    assert_eq!(s.hyper_spheres_capacity, 10 * SPHERE_RECORD_BYTES);
    // A smaller upload keeps the larger buffer.
    let plan = s.update_hyper_spheres(m).unwrap();
    assert_eq!(plan.grow_to, None);
    assert_eq!(s.hyper_spheres_capacity, 10 * SPHERE_RECORD_BYTES);
    let plan = s.update_hyper_spheres(k).unwrap();
    assert_eq!(plan.grow_to, None);
    assert_eq!(s.hyper_spheres_capacity, 10 * SPHERE_RECORD_BYTES);
    assert!(s.hyper_spheres_capacity >= (n.max(m).max(k) as u64) * SPHERE_RECORD_BYTES);
    assert_eq!(s.hyper_sphere_count, 7);
}

#[test]
fn empty_upload_keeps_one_record() {
    let mut s = RenderState::new();
    let plan = s.update_hyper_planes(0).unwrap();
    assert_eq!(plan.grow_to, None);
    assert_eq!(s.hyper_planes_capacity, PLANE_RECORD_BYTES);
    assert_eq!(s.hyper_plane_count, 0);
}

#[test]
fn oversized_counts_are_rejected() {
    let mut s = RenderState::new();
    let too_many: usize = u32::MAX as usize + 1;
    assert!(s.update_hyper_spheres(too_many).is_err());
    // Nothing changed.
    assert_eq!(s.hyper_spheres_capacity, SPHERE_RECORD_BYTES);
    assert_eq!(s.hyper_sphere_count, 0);
}

fn identity_camera_at(x: i128) -> Camera {
    Camera::new(Vec4 { x, y: 0, z: 0, w: 0, den: 1 })
}

#[test]
fn view_axes_pick_the_documented_triples() {
    let cam = identity_camera_at(0);
    let t = cam.transform(HalfAngle::zero());
    for (axes, up_w, right_w) in [
        (ViewAxes::XYZ, false, false),
        (ViewAxes::XWZ, true, false),
        (ViewAxes::XYW, false, true),
    ] {
        let data = RenderData {
            render_target: RenderTarget::new(32, 32),
            camera_transform: t,
            view_axes: axes,
        };
        let (block, gx, gy) = data.prepare();
        assert_eq!((gx, gy), (2, 2));
        // Identity rotation: forward is the x axis, as a rational vector.
        let f = block.forward;
        assert!(f.den > 0);
        assert_eq!((f.x, f.y, f.z, f.w), (f.den, 0, 0, 0));
        let up = block.up;
        if up_w {
            assert_eq!((up.x, up.y, up.z, up.w), (0, 0, 0, up.den));
        } else {
            assert_eq!((up.x, up.y, up.z, up.w), (0, up.den, 0, 0));
        }
        let right = block.right;
        if right_w {
            assert_eq!((right.x, right.y, right.z, right.w), (0, 0, 0, right.den));
        } else {
            assert_eq!((right.x, right.y, right.z, right.w), (0, 0, right.den, 0));
        }
    }
}

#[test]
fn workgroups_round_up() {
    let data = RenderData {
        render_target: RenderTarget::new(33, 16),
        camera_transform: identity_camera_at(0).transform(HalfAngle::zero()),
        view_axes: ViewAxes::XYZ,
    };
    let (_, gx, gy) = data.prepare();
    assert_eq!((gx, gy), (3, 1));
}

#[test]
fn central_view_of_a_unit_sphere_scene() {
    // One hypersphere at the origin, radius 1, red; the camera sits at
    // (-3, 0, 0, 0) with identity rotation and looks along +x in the XYZ
    // view: the push constants hand the shader exactly that frame.
    let mut objects = Objects::new();
    objects.insert_hypersphere(Hypersphere {
        group: None,
        transform: Pose::default(),
        radius: Ratio { num: 1, den: 1 },
        color: Vec3 { x: 1, y: 0, z: 0, den: 1 },
    });
    let mut state = RenderState::new();
    let live = objects
        .hyperspheres
        .iter()
        .filter(|h| h.is_some())
        .count();
    state.update_hyper_spheres(live).unwrap();
    assert_eq!(state.hyper_sphere_count, 1);

    let cam = identity_camera_at(-3);
    let data = RenderData {
        render_target: RenderTarget::new(64, 64),
        camera_transform: cam.transform(HalfAngle::zero()),
        view_axes: ViewAxes::XYZ,
    };
    let (block, gx, gy) = data.prepare();
    assert_eq!((gx, gy), (4, 4));
    let p = block.position;
    assert_eq!(p.x * 1, -3 * p.den);
    assert_eq!((p.y, p.z, p.w), (0, 0, 0));
    let f = block.forward;
    assert!(f.den > 0);
    assert_eq!((f.x, f.y, f.z, f.w), (f.den, 0, 0, 0));
}

#[test]
fn camera_rotation_composes_pitch_last() {
    let mut cam = identity_camera_at(0);
    cam.main_rotation = Rotor::rotate_xz(HalfAngle::from_half_tangent(1, 2));
    let pitch = HalfAngle::from_half_tangent(1, 3);
    let r = cam.rotation(pitch);
    assert_eq!(r, cam.main_rotation.and_then(Rotor::rotate_xy(pitch)));
}

#[test]
fn pitch_clamps_to_a_quarter_turn() {
    let mut cam = identity_camera_at(0);
    cam.xy_rotation = PITCH_CLAMP - 5;
    assert_eq!(cam.clamped_pitch(10), PITCH_CLAMP);
    cam.xy_rotation = -PITCH_CLAMP + 5;
    assert_eq!(cam.clamped_pitch(-10), -PITCH_CLAMP);
    cam.xy_rotation = 0;
    assert_eq!(cam.clamped_pitch(123), 123);
}

#[test]
fn default_pose_sits_at_the_origin() {
    let pose = Pose::default();
    let p = pose.transform().position();
    assert_eq!((p.x, p.y, p.z, p.w), (0, 0, 0, 0));
    assert!(p.den > 0);
}

#[test]
fn grouped_pose_leads_the_local_pose() {
    let mut objects = Objects::new();
    let mut group_pose = Pose::default();
    group_pose.position = Vec4 { x: 2, y: 0, z: 0, w: 0, den: 1 };
    let gid = objects.insert_group(Group { transform: group_pose });
    let mut local = Pose::default();
    local.position = Vec4 { x: 0, y: 5, z: 0, w: 0, den: 1 };
    let world = Objects::global_transform(&objects.groups, &local, Some(gid));
    let p = world.position();
    // Two pure translations compose to their sum.
    assert_eq!(p.x * 1, 2 * p.den);
    assert_eq!(p.y * 1, 5 * p.den);
    assert_eq!((p.z, p.w), (0, 0));
    // Without the group the local pose stands alone.
    let alone = Objects::global_transform(&objects.groups, &local, None);
    let q = alone.position();
    assert_eq!(q.x, 0);
    assert_eq!(q.y * 1, 5 * q.den);
}

#[test]
fn cleanup_clears_only_dangling_references() {
    let mut objects = Objects::new();
    let keep = objects.insert_group(Group { transform: Pose::default() });
    let doomed = objects.insert_group(Group { transform: Pose::default() });
    objects.insert_hypersphere(Hypersphere {
        group: Some(keep),
        transform: Pose::default(),
        radius: Ratio { num: 1, den: 1 },
        color: Vec3 { x: 1, y: 1, z: 1, den: 1 },
    });
    objects.insert_hypersphere(Hypersphere {
        group: Some(doomed),
        transform: Pose::default(),
        radius: Ratio { num: 1, den: 1 },
        color: Vec3 { x: 1, y: 1, z: 1, den: 1 },
    });
    assert!(objects.remove_group(doomed));
    objects.cleanup_invalid_ids();
    assert_eq!(objects.hyperspheres[0].unwrap().group, Some(keep));
    assert_eq!(objects.hyperspheres[1].unwrap().group, None);
    // A second sweep changes nothing.
    objects.cleanup_invalid_ids();
    assert_eq!(objects.hyperspheres[0].unwrap().group, Some(keep));
    assert_eq!(objects.hyperspheres[1].unwrap().group, None);
}

fn idle_input() -> CameraInput {
    CameraInput {
        shift: false,
        ctrl: false,
        move_forward: false,
        move_back: false,
        move_up: false,
        move_down: false,
        move_right: false,
        move_left: false,
        move_ana: false,
        move_kata: false,
        turn_right: false,
        turn_left: false,
        turn_up: false,
        turn_down: false,
        ts: Ratio { num: 1, den: 2 },
        xy_half: HalfAngle::zero(),
        step_half: HalfAngle::from_half_tangent(1, 2),
        step_units: 1000,
    }
}

#[test]
fn update_moves_along_the_view_axes() {
    // Speed 2 for half a second moves one unit forward.
    let mut cam = identity_camera_at(0);
    let mut input = idle_input();
    input.move_forward = true;
    cam.update(input);
    let p = cam.position;
    assert!(p.den > 0);
    assert_eq!(p.x, p.den);
    assert_eq!((p.y, p.z, p.w), (0, 0, 0));
    // Holding shift doubles the speed.
    let mut cam = identity_camera_at(0);
    input.shift = true;
    input.move_forward = false;
    input.move_up = true;
    cam.update(input);
    let p = cam.position;
    assert_eq!(p.y, 2 * p.den);
    assert_eq!((p.x, p.z, p.w), (0, 0, 0));
}

#[test]
fn update_turns_the_free_rotation() {
    let mut cam = identity_camera_at(0);
    let mut input = idle_input();
    input.turn_right = true;
    cam.update(input);
    assert_eq!(cam.main_rotation, Rotor::rotate_xz(input.step_half));
    // With ctrl the same arrow turns in the xw plane instead.
    let mut cam = identity_camera_at(0);
    input.ctrl = true;
    cam.update(input);
    assert_eq!(cam.main_rotation, Rotor::rotate_xw(input.step_half));
    // Position is untouched by pure turning.
    assert_eq!((cam.position.x, cam.position.y, cam.position.z, cam.position.w), (0, 0, 0, 0));
}

#[test]
fn update_moves_and_clamps_the_pitch() {
    let mut cam = identity_camera_at(0);
    let mut input = idle_input();
    input.turn_up = true;
    cam.update(input);
    assert_eq!(cam.xy_rotation, 1000);
    // The free rotation is untouched without ctrl on the vertical arrows.
    assert_eq!(cam.main_rotation, Rotor::identity());
    cam.xy_rotation = PITCH_CLAMP - 1;
    cam.update(input);
    assert_eq!(cam.xy_rotation, PITCH_CLAMP);
}
