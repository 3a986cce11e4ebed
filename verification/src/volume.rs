//! Bounding-volume shapes and their half-space classification tests.
//!
//! Every shape answers one question: placed at a world position, does the
//! volume lie entirely on the outward side of a plane given by a reference
//! point and an outward normal?  The normal is not required to be unit
//! length; each test is stated and carried out in exact integer arithmetic,
//! comparing against the volume's support extent scaled by the same normal.
//! A zero-length normal (a degenerate frustum face) therefore excludes
//! nothing: the signed distance is zero and never strictly positive.

use vstd::prelude::*;

use crate::vec3::NORMAL_MAX;
use crate::vec3::V3;
use crate::vec3::Vec3I;
use crate::vec3::WORLD_MAX;
use crate::vec3::in_range;
use crate::vec3::iabs;
use crate::vec3::lemma_mul_bounds;
use crate::vec3::lemma_vdot_bound;
use crate::vec3::vdot;
use crate::vec3::vsub;

verus! {

/// A shape that can be classified against a single frustum plane.
///
/// The engine is generic over this trait, so each instantiation is
/// monomorphic and classification is a direct call.
pub trait BoundingVolume: Sized {
    /// The shape's own data is within the world bounds.
    spec fn wf(&self) -> bool;

    /// Mathematical meaning of the test: the shape placed at `position`
    /// lies entirely on the positive side of the plane through
    /// `plane_point` with outward normal `plane_normal`.
    spec fn excluded(&self, position: V3, plane_point: V3, plane_normal: V3) -> bool;

    /// Decides `wf` exactly, so unverified callers can test it before
    /// handing the shape to the engine.
    fn in_bounds(&self) -> (r: bool)
        ensures
            r == self.wf(),
    ;

    /// Decides `excluded` exactly.
    fn outside_plane(&self, position: &Vec3I, plane_point: &Vec3I, plane_normal: &Vec3I) -> (r:
        bool)
        requires
            self.wf(),
            in_range(position@, WORLD_MAX as int),
            in_range(plane_point@, WORLD_MAX as int),
            in_range(plane_normal@, NORMAL_MAX as int),
        ensures
            r == self.excluded(position@, plane_point@, plane_normal@),
    ;
}

/// Decides membership of each component in the world range.
fn in_axis_range(v: &Vec3I) -> (r: bool)
    ensures
        r == in_range(v@, WORLD_MAX as int),
{
    -WORLD_MAX <= v.x && v.x <= WORLD_MAX && -WORLD_MAX <= v.y && v.y <= WORLD_MAX && -WORLD_MAX
        <= v.z && v.z <= WORLD_MAX
}

/// A sphere of fixed radius around the object's position.
#[derive(Clone, Copy, PartialEq, Eq, Structural, Debug)]
pub struct Sphere {
    pub radius: i64,
}

/// An axis-aligned box around the object's position.
#[derive(Clone, Copy, PartialEq, Eq, Structural, Debug)]
pub struct Aabb {
    pub half_extents: Vec3I,
}

/// An oriented box around the object's position: each axis is the box's
/// local basis vector already scaled by the half extent along it.
#[derive(Clone, Copy, PartialEq, Eq, Structural, Debug)]
pub struct Obb {
    pub axis_x: Vec3I,
    pub axis_y: Vec3I,
    pub axis_z: Vec3I,
}

impl BoundingVolume for Sphere {
    open spec fn wf(&self) -> bool {
        0 <= self.radius <= WORLD_MAX
    }

    /// The sphere is outside when its center's signed distance along the
    /// normal exceeds the radius; with an unnormalized normal both sides
    /// are scaled by the normal's length, and squaring removes the root.
    open spec fn excluded(&self, position: V3, plane_point: V3, plane_normal: V3) -> bool {
        let d = vdot(plane_normal, vsub(position, plane_point));
        d > 0 && d * d > self.radius * self.radius * vdot(plane_normal, plane_normal)
    }

    fn in_bounds(&self) -> (r: bool) {
        0 <= self.radius && self.radius <= WORLD_MAX
    }

    fn outside_plane(&self, position: &Vec3I, plane_point: &Vec3I, plane_normal: &Vec3I) -> (r:
        bool) {
        let offset: Vec3I = position.diff(plane_point);
        let d: i64 = plane_normal.dot_n(&offset);
        if d <= 0 {
            return false;
        }
        proof {
            lemma_vdot_bound(plane_normal@, offset@, 1_280_000_000_000, 800_000);
            lemma_mul_bounds(d as int, d as int, 3_072_000_000_000_000_000, 3_072_000_000_000_000_000);
            lemma_mul_bounds(self.radius as int, self.radius as int, 400_000, 400_000);
            lemma_vdot_bound(plane_normal@, plane_normal@, 1_280_000_000_000, 1_280_000_000_000);
        }
        let dd: i128 = (d as i128) * (d as i128);
        let rr: i64 = self.radius * self.radius;
        let nn: i128 = plane_normal.norm_sq();
        proof {
            lemma_mul_bounds(rr as int, nn as int, 160_000_000_000, 4_915_200_000_000_000_000_000_000);
        }
        dd > (rr as i128) * nn
    }
}

impl BoundingVolume for Aabb {
    open spec fn wf(&self) -> bool {
        &&& 0 <= self.half_extents.x <= WORLD_MAX
        &&& 0 <= self.half_extents.y <= WORLD_MAX
        &&& 0 <= self.half_extents.z <= WORLD_MAX
    }

    /// Support-point test: the box is outside when the signed distance of
    /// its center exceeds the projection of the half extents onto the
    /// normal.
    open spec fn excluded(&self, position: V3, plane_point: V3, plane_normal: V3) -> bool {
        let d = vdot(plane_normal, vsub(position, plane_point));
        let h = self.half_extents@;
        d > iabs(plane_normal.x) * h.x + iabs(plane_normal.y) * h.y + iabs(plane_normal.z) * h.z
    }

    fn in_bounds(&self) -> (r: bool) {
        0 <= self.half_extents.x && self.half_extents.x <= WORLD_MAX && 0 <= self.half_extents.y
            && self.half_extents.y <= WORLD_MAX && 0 <= self.half_extents.z && self.half_extents.z
            <= WORLD_MAX
    }

    fn outside_plane(&self, position: &Vec3I, plane_point: &Vec3I, plane_normal: &Vec3I) -> (r:
        bool) {
        let offset: Vec3I = position.diff(plane_point);
        let d: i64 = plane_normal.dot_n(&offset);
        let ax: i64 = if plane_normal.x < 0 {
            -plane_normal.x
        } else {
            plane_normal.x
        };
        let ay: i64 = if plane_normal.y < 0 {
            -plane_normal.y
        } else {
            plane_normal.y
        };
        let az: i64 = if plane_normal.z < 0 {
            -plane_normal.z
        } else {
            plane_normal.z
        };
        proof {
            lemma_mul_bounds(ax as int, self.half_extents.x as int, 1_280_000_000_000, 400_000);
            lemma_mul_bounds(ay as int, self.half_extents.y as int, 1_280_000_000_000, 400_000);
            lemma_mul_bounds(az as int, self.half_extents.z as int, 1_280_000_000_000, 400_000);
        }
        d > ax * self.half_extents.x + ay * self.half_extents.y + az * self.half_extents.z
    }
}

impl BoundingVolume for Obb {
    open spec fn wf(&self) -> bool {
        &&& in_range(self.axis_x@, WORLD_MAX as int)
        &&& in_range(self.axis_y@, WORLD_MAX as int)
        &&& in_range(self.axis_z@, WORLD_MAX as int)
    }

    /// Support-point test with the box's own axes: each scaled local axis
    /// is projected onto the normal before the magnitudes are summed.
    open spec fn excluded(&self, position: V3, plane_point: V3, plane_normal: V3) -> bool {
        let d = vdot(plane_normal, vsub(position, plane_point));
        d > iabs(vdot(plane_normal, self.axis_x@)) + iabs(vdot(plane_normal, self.axis_y@)) + iabs(
            vdot(plane_normal, self.axis_z@),
        )
    }

    fn in_bounds(&self) -> (r: bool) {
        in_axis_range(&self.axis_x) && in_axis_range(&self.axis_y) && in_axis_range(&self.axis_z)
    }

    fn outside_plane(&self, position: &Vec3I, plane_point: &Vec3I, plane_normal: &Vec3I) -> (r:
        bool) {
        let offset: Vec3I = position.diff(plane_point);
        let d: i64 = plane_normal.dot_n(&offset);
        proof {
            lemma_vdot_bound(plane_normal@, self.axis_x@, 1_280_000_000_000, 400_000);
            lemma_vdot_bound(plane_normal@, self.axis_y@, 1_280_000_000_000, 400_000);
            lemma_vdot_bound(plane_normal@, self.axis_z@, 1_280_000_000_000, 400_000);
        }
        let px: i64 = plane_normal.dot_n(&self.axis_x);
        let py: i64 = plane_normal.dot_n(&self.axis_y);
        let pz: i64 = plane_normal.dot_n(&self.axis_z);
        let sx: i64 = if px < 0 {
            -px
        } else {
            px
        };
        let sy: i64 = if py < 0 {
            -py
        } else {
            py
        };
        let sz: i64 = if pz < 0 {
            -pz
        } else {
            pz
        };
        d > sx + sy + sz
    }
}

} // verus!
