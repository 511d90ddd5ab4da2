//! The verified half of the GPU render pipeline.
//!
//! The GPU itself is outside this crate: textures, buffers, bind groups and
//! passes are created and submitted by the shell around the library.  What
//! is verified here is every decision that shell has to make: how large the
//! storage buffers must be and when they are replaced ([`RenderState`]),
//! what size the render target texture really gets ([`RenderTarget`]), and
//! which camera axes and workgroup counts each view's compute dispatch is
//! given ([`RenderData::prepare`]).  The shell performs exactly what these
//! values say and owns nothing else.

use vstd::prelude::*;

use crate::motor::{Transform, tv_bounded, tv_point, tv_rotor_part};
use crate::rotor::{SANDWICH_LIMIT, rv_dir};
use crate::vec::{Vec4, v4_origin, v4_unit_w, v4_unit_x, v4_unit_y, v4_unit_z};

verus! {

/// Bytes of one GPU hypersphere record: a motor's sixteen coefficients,
/// three color channels and the radius, each four bytes.
pub const SPHERE_RECORD_BYTES: u64 = 80;

/// Bytes of one GPU hyperplane record: a motor's sixteen coefficients,
/// three color channels, three extents and two padding words, each four
/// bytes.
pub const PLANE_RECORD_BYTES: u64 = 96;

/// Side of the square tile of pixels one compute workgroup covers.
pub const WORKGROUP_SIZE: u32 = 16;

/// The three simultaneous 3-dimensional cross-section views of the scene.
#[derive(Clone, Copy, Debug, PartialEq, Eq, Structural)]
pub enum ViewAxes {
    XYZ,
    XWZ,
    XYW,
}

/// The storage texture one view renders into.  The texture and its bind
/// resources live with the GPU; this type owns their one piece of state the
/// pipeline decides on, the clamped size.
#[derive(Clone, Copy, Debug, PartialEq, Eq, Structural)]
pub struct RenderTarget {
    width: u32,
    height: u32,
}

impl RenderTarget {
    pub closed spec fn spec_width(self) -> int {
        self.width as int
    }

    pub closed spec fn spec_height(self) -> int {
        self.height as int
    }

    /// Both dimensions are at least one texel: degenerate sizes cannot be
    /// requested from the GPU, and nothing downstream divides by zero.
    pub closed spec fn wf(self) -> bool {
        self.width >= 1 && self.height >= 1
    }

    /// A target of the requested size, with both dimensions clamped to a
    /// minimum of one texel.
    pub fn new(width: u32, height: u32) -> (r: RenderTarget)
        ensures
            r.spec_width() == if width >= 1 { width as int } else { 1int },
            r.spec_height() == if height >= 1 { height as int } else { 1int },
            r.wf(),
    {
        RenderTarget { width: if width >= 1 { width } else { 1 }, height: if height >= 1 { height } else { 1 } }
    }

    /// The current texture size.
    pub fn size(&self) -> (r: (u32, u32))
        ensures
            r.0 as int == self.spec_width(),
            r.1 as int == self.spec_height(),
    {
        (self.width, self.height)
    }

    /// Adopts the requested size, clamped to a minimum of one texel in each
    /// dimension.  Returns whether the size changed: only in that case must
    /// the caller reallocate the texture and its bind resources; requesting
    /// the current size is a no-op.
    pub fn maybe_resize(&mut self, width: u32, height: u32) -> (reallocate: bool)
        ensures
            final(self).spec_width() == if width >= 1 { width as int } else { 1int },
            final(self).spec_height() == if height >= 1 { height as int } else { 1int },
            final(self).wf(),
            reallocate == (*final(self) != *old(self)),
    {
        let width: u32 = if width >= 1 { width } else { 1 };
        let height: u32 = if height >= 1 { height } else { 1 };
        let changed: bool = width != self.width || height != self.height;
        self.width = width;
        self.height = height;
        changed
    }
}

/// The scene's object count does not fit the 32-bit count field of the
/// scene-info record the compute shader reads.
#[derive(Clone, Copy, Debug, PartialEq, Eq, Structural)]
pub struct CountOverflow;

/// What the shell must do to the GPU after an upload decision: if
/// `grow_to` is set, replace the storage buffer (and its bind group) by one
/// of that many bytes before writing the records.
#[derive(Clone, Copy, Debug, PartialEq, Eq, Structural)]
pub struct UploadPlan {
    pub grow_to: Option<u64>,
}

/// The byte size a storage buffer must have for `count` records of
/// `record_bytes` each: floored at one record so the buffer is never
/// zero-sized.
pub open spec fn buffer_size_for(count: int, record_bytes: int) -> int {
    if count >= 1 {
        count * record_bytes
    } else {
        record_bytes
    }
}

/// The capacity of a grow-only buffer after records of `needed` total bytes
/// were uploaded: replaced only when the records no longer fit.
pub open spec fn grown_capacity(capacity: int, count: int, record_bytes: int) -> int {
    if count * record_bytes > capacity {
        buffer_size_for(count, record_bytes)
    } else {
        capacity
    }
}

/// The sizes of the GPU resources shared by all three views: the two
/// object storage buffers (grow-only) and the object counts written to the
/// scene-info uniform.
#[derive(Clone, Copy, Debug, PartialEq, Eq, Structural)]
pub struct RenderState {
    pub hyper_spheres_capacity: u64,
    pub hyper_planes_capacity: u64,
    pub hyper_sphere_count: u32,
    pub hyper_plane_count: u32,
}

impl RenderState {
    /// The initial state: each buffer holds one (empty) record, the scene
    /// is empty.
    pub fn new() -> (r: RenderState)
        ensures
            r.hyper_spheres_capacity == SPHERE_RECORD_BYTES,
            r.hyper_planes_capacity == PLANE_RECORD_BYTES,
            r.hyper_sphere_count == 0,
            r.hyper_plane_count == 0,
    {
        RenderState {
            hyper_spheres_capacity: SPHERE_RECORD_BYTES,
            hyper_planes_capacity: PLANE_RECORD_BYTES,
            hyper_sphere_count: 0,
            hyper_plane_count: 0,
        }
    }

    /// Decides the upload of `count` hypersphere records: grows (never
    /// shrinks) the storage buffer when the records outgrow it, and records
    /// the new count for the scene-info uniform.  A count beyond the 32-bit
    /// field is rejected before anything is uploaded.
    pub fn update_hyper_spheres(&mut self, count: usize) -> (r: Result<UploadPlan, CountOverflow>)
        ensures
            count > u32::MAX ==> r is Err && *final(self) == *old(self),
            count <= u32::MAX ==> {
                &&& r is Ok
                &&& final(self).hyper_spheres_capacity as int == grown_capacity(
                    old(self).hyper_spheres_capacity as int,
                    count as int,
                    SPHERE_RECORD_BYTES as int,
                )
                &&& final(self).hyper_spheres_capacity >= old(self).hyper_spheres_capacity
                &&& final(self).hyper_spheres_capacity as int >= count as int
                    * SPHERE_RECORD_BYTES as int
                &&& final(self).hyper_sphere_count == count as u32
                &&& final(self).hyper_planes_capacity == old(self).hyper_planes_capacity
                &&& final(self).hyper_plane_count == old(self).hyper_plane_count
                &&& (r matches Ok(plan) ==> plan.grow_to == (if count as int
                    * SPHERE_RECORD_BYTES as int > old(self).hyper_spheres_capacity as int {
                    Some(final(self).hyper_spheres_capacity)
                } else {
                    Option::<u64>::None
                }))
            },
    {
        if count > u32::MAX as usize {
            return Err(CountOverflow);
        }
        let needed: u64 = (count as u64) * SPHERE_RECORD_BYTES;
        let plan: UploadPlan = if needed > self.hyper_spheres_capacity {
            let floored: u64 = if count >= 1 {
                count as u64
            } else {
                1
            };
            self.hyper_spheres_capacity = floored * SPHERE_RECORD_BYTES;
            UploadPlan { grow_to: Some(self.hyper_spheres_capacity) }
        } else {
            UploadPlan { grow_to: None }
        };
        self.hyper_sphere_count = count as u32;
        Ok(plan)
    }

    /// Decides the upload of `count` hyperplane records; the same grow-only
    /// policy as for hyperspheres, on the second storage buffer.
    pub fn update_hyper_planes(&mut self, count: usize) -> (r: Result<UploadPlan, CountOverflow>)
        ensures
            count > u32::MAX ==> r is Err && *final(self) == *old(self),
            count <= u32::MAX ==> {
                &&& r is Ok
                &&& final(self).hyper_planes_capacity as int == grown_capacity(
                    old(self).hyper_planes_capacity as int,
                    count as int,
                    PLANE_RECORD_BYTES as int,
                )
                &&& final(self).hyper_planes_capacity >= old(self).hyper_planes_capacity
                &&& final(self).hyper_planes_capacity as int >= count as int
                    * PLANE_RECORD_BYTES as int
                &&& final(self).hyper_plane_count == count as u32
                &&& final(self).hyper_spheres_capacity == old(self).hyper_spheres_capacity
                &&& final(self).hyper_sphere_count == old(self).hyper_sphere_count
            },
    {
        if count > u32::MAX as usize {
            return Err(CountOverflow);
        }
        let needed: u64 = (count as u64) * PLANE_RECORD_BYTES;
        if needed > self.hyper_planes_capacity {
            let floored: u64 = if count >= 1 {
                count as u64
            } else {
                1
            };
            self.hyper_planes_capacity = floored * PLANE_RECORD_BYTES;
            self.hyper_plane_count = count as u32;
            Ok(UploadPlan { grow_to: Some(self.hyper_planes_capacity) })
        } else {
            self.hyper_plane_count = count as u32;
            Ok(UploadPlan { grow_to: None })
        }
    }
}

/// After uploads of three record counts in turn, the buffer capacity covers
/// the largest of them and never shrank along the way.
pub proof fn lemma_buffer_growth(c0: int, n1: int, n2: int, n3: int, rb: int)
    by (nonlinear_arith)
    requires
        c0 >= 0,
        n1 >= 0,
        n2 >= 0,
        n3 >= 0,
        rb > 0,
    ensures
        ({
            let c1 = grown_capacity(c0, n1, rb);
            let c2 = grown_capacity(c1, n2, rb);
            let c3 = grown_capacity(c2, n3, rb);
            &&& c1 >= c0 && c2 >= c1 && c3 >= c2
            &&& c3 >= n1 * rb && c3 >= n2 * rb && c3 >= n3 * rb
        }),
{
}

/// The per-dispatch camera data handed to the ray-tracing compute shader
/// as push constants.
#[derive(Clone, Copy, Debug, PartialEq, Eq, Structural)]
pub struct CameraBlock {
    pub position: Vec4,
    pub forward: Vec4,
    pub up: Vec4,
    pub right: Vec4,
}

/// One view's unit of per-frame render work: its target, the camera pose,
/// and which three of the camera's four axes the view projects along.
pub struct RenderData {
    pub render_target: RenderTarget,
    pub camera_transform: Transform,
    pub view_axes: ViewAxes,
}

impl RenderData {
    /// Everything the compute dispatch of this view needs: the push-constant
    /// camera block and the workgroup grid.  The view picks three of the
    /// camera's axis images — XYZ keeps forward/up/right, XWZ replaces up by
    /// ana, XYW replaces right by ana — and the grid covers the target with
    /// one workgroup per 16x16 tile, rounding up.
    pub fn prepare(&self) -> (r: (CameraBlock, u32, u32))
        requires
            tv_bounded(self.camera_transform@, SANDWICH_LIMIT as int),
            self.render_target.wf(),
        ensures
            r.0.position@ == tv_point(self.camera_transform@, v4_origin()),
            r.0.forward@ == rv_dir(tv_rotor_part(self.camera_transform@), v4_unit_x()),
            r.0.up@ == rv_dir(
                tv_rotor_part(self.camera_transform@),
                match self.view_axes {
                    ViewAxes::XYZ => v4_unit_y(),
                    ViewAxes::XWZ => v4_unit_w(),
                    ViewAxes::XYW => v4_unit_y(),
                },
            ),
            r.0.right@ == rv_dir(
                tv_rotor_part(self.camera_transform@),
                match self.view_axes {
                    ViewAxes::XYZ => v4_unit_z(),
                    ViewAxes::XWZ => v4_unit_z(),
                    ViewAxes::XYW => v4_unit_w(),
                },
            ),
            r.1 as int == (self.render_target.spec_width() + 15) / 16,
            r.2 as int == (self.render_target.spec_height() + 15) / 16,
            r.1 >= 1 && r.2 >= 1,
    {
        let x: Vec4 = self.camera_transform.forward();
        let y: Vec4 = self.camera_transform.up();
        let z: Vec4 = self.camera_transform.right();
        let w: Vec4 = self.camera_transform.ana();
        let (up, right): (Vec4, Vec4) = match self.view_axes {
            ViewAxes::XYZ => (y, z),
            ViewAxes::XWZ => (w, z),
            ViewAxes::XYW => (y, w),
        };
        let block = CameraBlock {
            position: self.camera_transform.position(),
            forward: x,
            up,
            right,
        };
        let (width, height): (u32, u32) = self.render_target.size();
        let groups_x: u32 = ((width as u64 + 15) / 16) as u32;
        let groups_y: u32 = ((height as u64 + 15) / 16) as u32;
        (block, groups_x, groups_y)
    }
}

} // verus!
