//! Scene objects: per-plane rotation poses, drawables, and their tables.
//!
//! A drawable's pose is edited as six per-plane angles plus a position
//! ([`Transform`]); the renderer consumes it as a motor
//! ([`Transform::transform`]).  Drawables live in id-indexed tables
//! ([`Objects`]): ids are never reused, deletion leaves a hole, and a
//! drawable's optional group reference can dangle after its group is
//! deleted until [`Objects::cleanup_invalid_ids`] sweeps it away.  Display
//! names are part of the editing shell, not of the scene core.

use vstd::prelude::*;

use crate::motor;
use crate::motor::{
    TransformV, lemma_motor_mul_bounded, tv_bounded, tv_from_rotor, tv_mul, tv_translation,
};
use crate::rotor::{
    ENTRY_LIMIT, HalfAngle, Plane, Rotor, RotorV, lemma_compose_unit, lemma_rotate_unit,
    lemma_unit_entry_bound, rv_mul, rv_rotate, rv_unit, rv_wf,
};
use crate::vec::{Ratio, Vec3, Vec4};

verus! {

/// Bound on the product of the six half-angle denominators of one pose.
pub const POSE_DEN_LIMIT: i128 = 0x100_0000_0000;

/// Bound on the magnitude of a pose's position numerators.
pub const POSE_POS_LIMIT: i128 = 0x1_0000;

/// Bound on a pose's position denominator.
pub const POSE_POS_DEN_LIMIT: i128 = 0x100;

/// An editable pose: a position and one rotation angle for each of the six
/// coordinate planes, each angle held as the half-angle pair of cosine and
/// sine.
#[derive(Clone, Copy, Debug, PartialEq, Eq, Structural)]
pub struct Transform {
    pub position: Vec4,
    pub xy_rotation: HalfAngle,
    pub xz_rotation: HalfAngle,
    pub xw_rotation: HalfAngle,
    pub yz_rotation: HalfAngle,
    pub yw_rotation: HalfAngle,
    pub zw_rotation: HalfAngle,
}

impl Transform {
    /// The pose is usable by the algebra: every half-angle pair lies
    /// exactly on the unit circle, the six denominators jointly stay small
    /// enough for exact composition, and the position is within range.
    pub open spec fn wf(self) -> bool {
        &&& self.xy_rotation.is_unit() && self.xy_rotation.wf()
        &&& self.xz_rotation.is_unit() && self.xz_rotation.wf()
        &&& self.xw_rotation.is_unit() && self.xw_rotation.wf()
        &&& self.yz_rotation.is_unit() && self.yz_rotation.wf()
        &&& self.yw_rotation.is_unit() && self.yw_rotation.wf()
        &&& self.zw_rotation.is_unit() && self.zw_rotation.wf()
        &&& self.xy_rotation.den * self.xz_rotation.den * self.xw_rotation.den
            * self.yz_rotation.den * self.yw_rotation.den * self.zw_rotation.den <= POSE_DEN_LIMIT
        &&& 0 < self.position.den <= POSE_POS_DEN_LIMIT
        &&& -POSE_POS_LIMIT <= self.position.x <= POSE_POS_LIMIT
        &&& -POSE_POS_LIMIT <= self.position.y <= POSE_POS_LIMIT
        &&& -POSE_POS_LIMIT <= self.position.z <= POSE_POS_LIMIT
        &&& -POSE_POS_LIMIT <= self.position.w <= POSE_POS_LIMIT
    }

    /// The rotor this pose's six plane angles compose to, xy first and zw
    /// last.
    pub open spec fn rotor_v(self) -> RotorV {
        rv_mul(
            rv_mul(
                rv_mul(
                    rv_mul(
                        rv_mul(
                            rv_rotate(
                                Plane::Xy,
                                self.xy_rotation.cos as int,
                                self.xy_rotation.sin as int,
                                self.xy_rotation.den as int,
                            ),
                            rv_rotate(
                                Plane::Xz,
                                self.xz_rotation.cos as int,
                                self.xz_rotation.sin as int,
                                self.xz_rotation.den as int,
                            ),
                        ),
                        rv_rotate(
                            Plane::Xw,
                            self.xw_rotation.cos as int,
                            self.xw_rotation.sin as int,
                            self.xw_rotation.den as int,
                        ),
                    ),
                    rv_rotate(
                        Plane::Yz,
                        self.yz_rotation.cos as int,
                        self.yz_rotation.sin as int,
                        self.yz_rotation.den as int,
                    ),
                ),
                rv_rotate(
                    Plane::Yw,
                    self.yw_rotation.cos as int,
                    self.yw_rotation.sin as int,
                    self.yw_rotation.den as int,
                ),
            ),
            rv_rotate(
                Plane::Zw,
                self.zw_rotation.cos as int,
                self.zw_rotation.sin as int,
                self.zw_rotation.den as int,
            ),
        )
    }

    /// The motor this pose denotes: translate to the position, and rotate
    /// there by the composed plane rotations.
    pub open spec fn motor_v(self) -> TransformV {
        tv_mul(tv_translation(self.position@), tv_from_rotor(self.rotor_v()))
    }

    /// The motor of this pose, computed exactly.
    pub fn transform(&self) -> (r: motor::Transform)
        requires
            self.wf(),
        ensures
            r@ == self.motor_v(),
            r.den > 0,
    {
        let ghost d1: int = self.xy_rotation.den as int;
        let ghost d2: int = self.xz_rotation.den as int;
        let ghost d3: int = self.xw_rotation.den as int;
        let ghost d4: int = self.yz_rotation.den as int;
        let ghost d5: int = self.yw_rotation.den as int;
        let ghost d6: int = self.zw_rotation.den as int;
        proof {
            assert(d1 * d2 <= POSE_DEN_LIMIT && d1 * d2 * d3 <= POSE_DEN_LIMIT && d1 * d2 * d3 * d4
                <= POSE_DEN_LIMIT && d1 * d2 * d3 * d4 * d5 <= POSE_DEN_LIMIT && d1 * d2 * d3 * d4
                * d5 * d6 <= POSE_DEN_LIMIT && d1 * d2 > 0 && d1 * d2 * d3 > 0 && d1 * d2 * d3 * d4
                > 0 && d1 * d2 * d3 * d4 * d5 > 0 && d1 * d2 * d3 * d4 * d5 * d6 > 0 && d1
                <= POSE_DEN_LIMIT && d2 <= POSE_DEN_LIMIT && d3 <= POSE_DEN_LIMIT && d4
                <= POSE_DEN_LIMIT && d5 <= POSE_DEN_LIMIT && d6 <= POSE_DEN_LIMIT)
                by (nonlinear_arith)
                requires
                    d1 * d2 * d3 * d4 * d5 * d6 <= POSE_DEN_LIMIT,
                    d1 > 0,
                    d2 > 0,
                    d3 > 0,
                    d4 > 0,
                    d5 > 0,
                    d6 > 0,
            ;
        }
        let rxy: Rotor = Rotor::rotate_xy(self.xy_rotation);
        let rxz: Rotor = Rotor::rotate_xz(self.xz_rotation);
        let rxw: Rotor = Rotor::rotate_xw(self.xw_rotation);
        let ryz: Rotor = Rotor::rotate_yz(self.yz_rotation);
        let ryw: Rotor = Rotor::rotate_yw(self.yw_rotation);
        let rzw: Rotor = Rotor::rotate_zw(self.zw_rotation);
        proof {
            lemma_unit_entry_bound(rxy@);
            lemma_unit_entry_bound(rxz@);
        }
        let acc: Rotor = rxy.and_then(rxz);
        proof {
            lemma_compose_unit(rxy@, rxz@);
            lemma_unit_entry_bound(acc@);
            lemma_unit_entry_bound(rxw@);
        }
        let acc: Rotor = acc.and_then(rxw);
        proof {
            lemma_compose_unit(rv_mul(rxy@, rxz@), rxw@);
            lemma_unit_entry_bound(acc@);
            lemma_unit_entry_bound(ryz@);
        }
        let acc: Rotor = acc.and_then(ryz);
        proof {
            lemma_compose_unit(rv_mul(rv_mul(rxy@, rxz@), rxw@), ryz@);
            lemma_unit_entry_bound(acc@);
            lemma_unit_entry_bound(ryw@);
        }
        let acc: Rotor = acc.and_then(ryw);
        proof {
            lemma_compose_unit(rv_mul(rv_mul(rv_mul(rxy@, rxz@), rxw@), ryz@), ryw@);
            lemma_unit_entry_bound(acc@);
            lemma_unit_entry_bound(rzw@);
        }
        let acc: Rotor = acc.and_then(rzw);
        proof {
            lemma_compose_unit(
                rv_mul(rv_mul(rv_mul(rv_mul(rxy@, rxz@), rxw@), ryz@), ryw@),
                rzw@,
            );
            lemma_unit_entry_bound(acc@);
        }
        motor::Transform::translation(self.position).and_then(motor::Transform::from_rotor(acc))
    }
}

impl Default for Transform {
    /// The neutral pose: at the origin, no rotation in any plane.
    fn default() -> (r: Transform)
        ensures
            r.position == (Vec4 { x: 0, y: 0, z: 0, w: 0, den: 1 }),
            r.xy_rotation == (HalfAngle { cos: 1, sin: 0, den: 1 }),
            r.xz_rotation == (HalfAngle { cos: 1, sin: 0, den: 1 }),
            r.xw_rotation == (HalfAngle { cos: 1, sin: 0, den: 1 }),
            r.yz_rotation == (HalfAngle { cos: 1, sin: 0, den: 1 }),
            r.yw_rotation == (HalfAngle { cos: 1, sin: 0, den: 1 }),
            r.zw_rotation == (HalfAngle { cos: 1, sin: 0, den: 1 }),
            r.wf(),
    {
        let zero: HalfAngle = HalfAngle::zero();
        Transform {
            position: Vec4 { x: 0, y: 0, z: 0, w: 0, den: 1 },
            xy_rotation: zero,
            xz_rotation: zero,
            xw_rotation: zero,
            yz_rotation: zero,
            yw_rotation: zero,
            zw_rotation: zero,
        }
    }
}

/// Identifies a group in its table; never reused after deletion.
#[derive(Clone, Copy, Debug, PartialEq, Eq, Structural)]
pub struct GroupID {
    pub index: usize,
}

/// Identifies a hypersphere in its table; never reused after deletion.
#[derive(Clone, Copy, Debug, PartialEq, Eq, Structural)]
pub struct HypersphereID {
    pub index: usize,
}

/// Identifies a hyperplane in its table; never reused after deletion.
#[derive(Clone, Copy, Debug, PartialEq, Eq, Structural)]
pub struct HyperplaneID {
    pub index: usize,
}

/// A group of drawables sharing one leading pose.
#[derive(Clone, Copy, Debug, PartialEq, Eq, Structural)]
pub struct Group {
    pub transform: Transform,
}

/// A hypersphere drawable: a pose, a radius and a color, optionally led by
/// a group's pose.
#[derive(Clone, Copy, Debug, PartialEq, Eq, Structural)]
pub struct Hypersphere {
    pub group: Option<GroupID>,
    pub transform: Transform,
    pub radius: Ratio,
    pub color: Vec3,
}

/// A hyperplane drawable: a pose, three extents and a color, optionally
/// led by a group's pose.
#[derive(Clone, Copy, Debug, PartialEq, Eq, Structural)]
pub struct Hyperplane {
    pub group: Option<GroupID>,
    pub transform: Transform,
    pub width: Ratio,
    pub height: Ratio,
    pub depth: Ratio,
    pub color: Vec3,
}

/// The scene's drawable tables.  A deleted entry leaves a `None` hole so
/// that ids stay stable and are never reused.
pub struct Objects {
    pub groups: Vec<Option<Group>>,
    pub hyperspheres: Vec<Option<Hypersphere>>,
    pub hyperplanes: Vec<Option<Hyperplane>>,
}

impl Objects {
    /// `id` names a group that is still alive.
    pub open spec fn group_live(self, id: GroupID) -> bool {
        id.index < self.groups@.len() && self.groups@[id.index as int] is Some
    }

    /// The world motor of a drawable with pose `transform` under the
    /// optional group `group`: the group's motor leads, the local pose
    /// follows; a missing or dangling group reference leaves the local
    /// pose alone.
    pub open spec fn world_motor_v(
        groups: Seq<Option<Group>>,
        transform: Transform,
        group: Option<GroupID>,
    ) -> TransformV {
        match group {
            Some(id) => {
                if id.index < groups.len() && groups[id.index as int] is Some {
                    tv_mul(
                        groups[id.index as int]->Some_0.transform.motor_v(),
                        transform.motor_v(),
                    )
                } else {
                    transform.motor_v()
                }
            },
            None => transform.motor_v(),
        }
    }

    pub fn new() -> (r: Objects)
        ensures
            r.groups@.len() == 0,
            r.hyperspheres@.len() == 0,
            r.hyperplanes@.len() == 0,
    {
        Objects { groups: Vec::new(), hyperspheres: Vec::new(), hyperplanes: Vec::new() }
    }

    pub fn insert_group(&mut self, group: Group) -> (id: GroupID)
        ensures
            final(self).groups@ == old(self).groups@.push(Some(group)),
            final(self).hyperspheres@ == old(self).hyperspheres@,
            final(self).hyperplanes@ == old(self).hyperplanes@,
            id.index == old(self).groups@.len(),
            final(self).group_live(id),
    {
        let id = GroupID { index: self.groups.len() };
        self.groups.push(Some(group));
        id
    }

    pub fn insert_hypersphere(&mut self, sphere: Hypersphere) -> (id: HypersphereID)
        ensures
            final(self).hyperspheres@ == old(self).hyperspheres@.push(Some(sphere)),
            final(self).groups@ == old(self).groups@,
            final(self).hyperplanes@ == old(self).hyperplanes@,
            id.index == old(self).hyperspheres@.len(),
    {
        let id = HypersphereID { index: self.hyperspheres.len() };
        self.hyperspheres.push(Some(sphere));
        id
    }

    pub fn insert_hyperplane(&mut self, plane: Hyperplane) -> (id: HyperplaneID)
        ensures
            final(self).hyperplanes@ == old(self).hyperplanes@.push(Some(plane)),
            final(self).groups@ == old(self).groups@,
            final(self).hyperspheres@ == old(self).hyperspheres@,
            id.index == old(self).hyperplanes@.len(),
    {
        let id = HyperplaneID { index: self.hyperplanes.len() };
        self.hyperplanes.push(Some(plane));
        id
    }

    /// Deletes a group, leaving a hole; drawables that referenced it keep
    /// a dangling reference until the next sweep.
    pub fn remove_group(&mut self, id: GroupID) -> (removed: bool)
        ensures
            removed == old(self).group_live(id),
            removed ==> final(self).groups@ == old(self).groups@.update(id.index as int, None),
            !removed ==> final(self).groups@ == old(self).groups@,
            final(self).hyperspheres@ == old(self).hyperspheres@,
            final(self).hyperplanes@ == old(self).hyperplanes@,
    {
        if id.index < self.groups.len() {
            let live: bool = self.groups[id.index].is_some();
            if live {
                self.groups.set(id.index, None);
                return true;
            }
        }
        false
    }

    /// The sweep of a drawable's group reference: cleared exactly when it
    /// dangles.
    pub open spec fn swept_ref(
        groups: Seq<Option<Group>>,
        group: Option<GroupID>,
    ) -> Option<GroupID> {
        match group {
            Some(id) => {
                if id.index < groups.len() && groups[id.index as int] is Some {
                    Some(id)
                } else {
                    None
                }
            },
            None => None,
        }
    }

    /// Clears every dangling group reference on every drawable; all other
    /// fields and the tables themselves are untouched.
    pub fn cleanup_invalid_ids(&mut self)
        ensures
            final(self).groups@ == old(self).groups@,
            final(self).hyperspheres@.len() == old(self).hyperspheres@.len(),
            final(self).hyperplanes@.len() == old(self).hyperplanes@.len(),
            forall|i: int|
                0 <= i < old(self).hyperspheres@.len() ==> final(self).hyperspheres@[i] == match old(
                    self,
                ).hyperspheres@[i] {
                    Some(h) => Some(
                        Hypersphere { group: Objects::swept_ref(old(self).groups@, h.group), ..h },
                    ),
                    None => None,
                },
            forall|i: int|
                0 <= i < old(self).hyperplanes@.len() ==> final(self).hyperplanes@[i] == match old(
                    self,
                ).hyperplanes@[i] {
                    Some(h) => Some(
                        Hyperplane { group: Objects::swept_ref(old(self).groups@, h.group), ..h },
                    ),
                    None => None,
                },
    {
        let ghost groups0 = self.groups@;
        let ghost spheres0 = self.hyperspheres@;
        let ghost planes0 = self.hyperplanes@;
        let mut i: usize = 0;
        while i < self.hyperspheres.len()
            invariant
                self.groups@ == groups0,
                self.hyperplanes@ == planes0,
                self.hyperspheres@.len() == spheres0.len(),
                i <= spheres0.len(),
                forall|j: int|
                    i <= j < spheres0.len() ==> self.hyperspheres@[j] == spheres0[j],
                forall|j: int|
                    0 <= j < i ==> self.hyperspheres@[j] == match spheres0[j] {
                        Some(h) => Some(
                            Hypersphere { group: Objects::swept_ref(groups0, h.group), ..h },
                        ),
                        None => None,
                    },
            decreases self.hyperspheres@.len() - i,
        {
            let entry: Option<Hypersphere> = self.hyperspheres[i];
            if let Some(h) = entry {
                let swept: Option<GroupID> = match h.group {
                    Some(id) => {
                        if id.index < self.groups.len() {
                            if self.groups[id.index].is_some() {
                                Some(id)
                            } else {
                                None
                            }
                        } else {
                            None
                        }
                    },
                    None => None,
                };
                self.hyperspheres.set(i, Some(Hypersphere { group: swept, ..h }));
            }
            i = i + 1;
        }
        let mut i: usize = 0;
        while i < self.hyperplanes.len()
            invariant
                self.groups@ == groups0,
                self.hyperspheres@.len() == spheres0.len(),
                forall|j: int|
                    0 <= j < spheres0.len() ==> self.hyperspheres@[j] == match spheres0[j] {
                        Some(h) => Some(
                            Hypersphere { group: Objects::swept_ref(groups0, h.group), ..h },
                        ),
                        None => None,
                    },
                self.hyperplanes@.len() == planes0.len(),
                i <= planes0.len(),
                forall|j: int|
                    i <= j < planes0.len() ==> self.hyperplanes@[j] == planes0[j],
                forall|j: int|
                    0 <= j < i ==> self.hyperplanes@[j] == match planes0[j] {
                        Some(h) => Some(
                            Hyperplane { group: Objects::swept_ref(groups0, h.group), ..h },
                        ),
                        None => None,
                    },
            decreases self.hyperplanes@.len() - i,
        {
            let entry: Option<Hyperplane> = self.hyperplanes[i];
            if let Some(h) = entry {
                let swept: Option<GroupID> = match h.group {
                    Some(id) => {
                        if id.index < self.groups.len() {
                            if self.groups[id.index].is_some() {
                                Some(id)
                            } else {
                                None
                            }
                        } else {
                            None
                        }
                    },
                    None => None,
                };
                self.hyperplanes.set(i, Some(Hyperplane { group: swept, ..h }));
            }
            i = i + 1;
        }
    }

    /// The world motor of a drawable with pose `transform` under the
    /// optional `group`: the group's pose leads when the reference is
    /// alive, else the local pose stands alone.
    pub fn global_transform(
        groups: &Vec<Option<Group>>,
        transform: &Transform,
        group: Option<GroupID>,
    ) -> (r: motor::Transform)
        requires
            transform.wf(),
            forall|i: int|
                0 <= i < groups@.len() ==> ((#[trigger] groups@[i]) matches Some(g)
                    ==> g.transform.wf()),
        ensures
            r@ == Objects::world_motor_v(groups@, *transform, group),
            r.den > 0,
    {
        if let Some(id) = group {
            if id.index < groups.len() {
                let entry: Option<Group> = groups[id.index];
                if let Some(g) = entry {
                    let leader: motor::Transform = g.transform.transform();
                    let local: motor::Transform = transform.transform();
                    proof {
                        lemma_pose_motor_bounded(g.transform);
                        lemma_pose_motor_bounded(*transform);
                    }
                    return leader.and_then(local);
                }
            }
        }
        transform.transform()
    }
}

/// The motor of a well-formed pose stays within the algebra's operating
/// range, so two of them can be composed.
pub proof fn lemma_pose_motor_bounded(t: Transform)
    requires
        t.wf(),
    ensures
        tv_bounded(t.motor_v(), ENTRY_LIMIT as int),
{
    let d1: int = t.xy_rotation.den as int;
    let d2: int = t.xz_rotation.den as int;
    let d3: int = t.xw_rotation.den as int;
    let d4: int = t.yz_rotation.den as int;
    let d5: int = t.yw_rotation.den as int;
    let d6: int = t.zw_rotation.den as int;
    let r1 = rv_rotate(
        Plane::Xy,
        t.xy_rotation.cos as int,
        t.xy_rotation.sin as int,
        t.xy_rotation.den as int,
    );
    let r2 = rv_rotate(
        Plane::Xz,
        t.xz_rotation.cos as int,
        t.xz_rotation.sin as int,
        t.xz_rotation.den as int,
    );
    let r3 = rv_rotate(
        Plane::Xw,
        t.xw_rotation.cos as int,
        t.xw_rotation.sin as int,
        t.xw_rotation.den as int,
    );
    let r4 = rv_rotate(
        Plane::Yz,
        t.yz_rotation.cos as int,
        t.yz_rotation.sin as int,
        t.yz_rotation.den as int,
    );
    let r5 = rv_rotate(
        Plane::Yw,
        t.yw_rotation.cos as int,
        t.yw_rotation.sin as int,
        t.yw_rotation.den as int,
    );
    let r6 = rv_rotate(
        Plane::Zw,
        t.zw_rotation.cos as int,
        t.zw_rotation.sin as int,
        t.zw_rotation.den as int,
    );
    lemma_rotate_unit(
        Plane::Xy,
        t.xy_rotation.cos as int,
        t.xy_rotation.sin as int,
        t.xy_rotation.den as int,
    );
    lemma_rotate_unit(
        Plane::Xz,
        t.xz_rotation.cos as int,
        t.xz_rotation.sin as int,
        t.xz_rotation.den as int,
    );
    lemma_rotate_unit(
        Plane::Xw,
        t.xw_rotation.cos as int,
        t.xw_rotation.sin as int,
        t.xw_rotation.den as int,
    );
    lemma_rotate_unit(
        Plane::Yz,
        t.yz_rotation.cos as int,
        t.yz_rotation.sin as int,
        t.yz_rotation.den as int,
    );
    lemma_rotate_unit(
        Plane::Yw,
        t.yw_rotation.cos as int,
        t.yw_rotation.sin as int,
        t.yw_rotation.den as int,
    );
    lemma_rotate_unit(
        Plane::Zw,
        t.zw_rotation.cos as int,
        t.zw_rotation.sin as int,
        t.zw_rotation.den as int,
    );
    lemma_compose_unit(r1, r2);
    lemma_compose_unit(rv_mul(r1, r2), r3);
    lemma_compose_unit(rv_mul(rv_mul(r1, r2), r3), r4);
    lemma_compose_unit(rv_mul(rv_mul(rv_mul(r1, r2), r3), r4), r5);
    lemma_compose_unit(rv_mul(rv_mul(rv_mul(rv_mul(r1, r2), r3), r4), r5), r6);
    let rot = t.rotor_v();
    assert(rot.den == d1 * d2 * d3 * d4 * d5 * d6) by (nonlinear_arith)
        requires
            rot == rv_mul(rv_mul(rv_mul(rv_mul(rv_mul(r1, r2), r3), r4), r5), r6),
            r1.den == d1 && r2.den == d2 && r3.den == d3 && r4.den == d4 && r5.den == d5
                && r6.den == d6,
    ;
    assert(0 < rot.den <= POSE_DEN_LIMIT) by (nonlinear_arith)
        requires
            rot.den == d1 * d2 * d3 * d4 * d5 * d6,
            d1 > 0 && d2 > 0 && d3 > 0 && d4 > 0 && d5 > 0 && d6 > 0,
            d1 * d2 * d3 * d4 * d5 * d6 <= POSE_DEN_LIMIT,
    ;
    lemma_unit_entry_bound(rot);
    let trans = tv_translation(t.position@);
    lemma_motor_mul_bounded(
        trans,
        tv_from_rotor(rot),
        2 * POSE_POS_LIMIT as int,
        POSE_DEN_LIMIT as int,
    );
    assert(16 * ((2 * POSE_POS_LIMIT as int) * POSE_DEN_LIMIT as int) <= ENTRY_LIMIT as int);
}

} // verus!
