//! Extraction of the six frustum planes from a camera's viewing volume.
//!
//! The camera hands the engine the eight world-space corners of its
//! normalized-device-coordinate cube (the points `(±1, ±1, ±1)` pushed
//! through the camera's world transform composed with the inverse
//! projection).  Each of the six faces yields a plane: one corner of the
//! face is the reference point and the cross product of two of its edges is
//! the outward normal.  The normals are left unnormalized; the shape tests
//! scale both sides of their comparisons by the same factor, so the
//! classification is unchanged, and a degenerate face with a zero-length
//! normal excludes nothing instead of poisoning the pass.

use vstd::prelude::*;

use crate::vec3::NORMAL_MAX;
use crate::vec3::V3;
use crate::vec3::Vec3I;
use crate::vec3::WORLD_MAX;
use crate::vec3::in_range;
use crate::vec3::vadd;
use crate::vec3::vcross;
use crate::vec3::vsub;
use crate::volume::BoundingVolume;

verus! {

/// A half-space: a reference point on the plane and an outward normal.
#[derive(Clone, Copy, PartialEq, Eq, Structural, Debug)]
pub struct Plane {
    pub point: Vec3I,
    pub normal: Vec3I,
}

impl Plane {
    pub open spec fn wf(&self) -> bool {
        &&& in_range(self.point@, WORLD_MAX as int)
        &&& in_range(self.normal@, NORMAL_MAX as int)
    }
}

/// The eight world-space corners of a camera's viewing volume, named by
/// near/far, bottom/top and left/right.
#[derive(Clone, Copy, PartialEq, Eq, Structural, Debug)]
pub struct FrustumCorners {
    pub nbl: Vec3I,
    pub nbr: Vec3I,
    pub ntl: Vec3I,
    pub ntr: Vec3I,
    pub fbl: Vec3I,
    pub fbr: Vec3I,
    pub ftl: Vec3I,
    pub ftr: Vec3I,
}

impl FrustumCorners {
    pub open spec fn wf(&self) -> bool {
        &&& in_range(self.nbl@, WORLD_MAX as int)
        &&& in_range(self.nbr@, WORLD_MAX as int)
        &&& in_range(self.ntl@, WORLD_MAX as int)
        &&& in_range(self.ntr@, WORLD_MAX as int)
        &&& in_range(self.fbl@, WORLD_MAX as int)
        &&& in_range(self.fbr@, WORLD_MAX as int)
        &&& in_range(self.ftl@, WORLD_MAX as int)
        &&& in_range(self.ftr@, WORLD_MAX as int)
    }
}

pub open spec fn near_normal(c: FrustumCorners) -> V3 {
    vcross(vsub(c.nbr@, c.nbl@), vsub(c.ntl@, c.nbl@))
}

pub open spec fn far_normal(c: FrustumCorners) -> V3 {
    vcross(vsub(c.fbr@, c.ftr@), vsub(c.ftl@, c.ftr@))
}

pub open spec fn top_normal(c: FrustumCorners) -> V3 {
    vcross(vsub(c.ftl@, c.ftr@), vsub(c.ntr@, c.ftr@))
}

pub open spec fn bottom_normal(c: FrustumCorners) -> V3 {
    vcross(vsub(c.fbl@, c.nbl@), vsub(c.nbr@, c.nbl@))
}

pub open spec fn right_normal(c: FrustumCorners) -> V3 {
    vcross(vsub(c.ntr@, c.ftr@), vsub(c.fbr@, c.ftr@))
}

pub open spec fn left_normal(c: FrustumCorners) -> V3 {
    vcross(vsub(c.ntl@, c.nbl@), vsub(c.fbl@, c.nbl@))
}

/// The six planes of a camera's frustum, each with an outward normal.
///
/// The fixed iteration order of the engine is left, right, bottom, top,
/// near, far.
#[derive(Clone, Copy, PartialEq, Eq, Structural, Debug)]
pub struct Frustum {
    pub left: Plane,
    pub right: Plane,
    pub bottom: Plane,
    pub top: Plane,
    pub near: Plane,
    pub far: Plane,
}

impl Frustum {
    pub open spec fn wf(&self) -> bool {
        &&& self.left.wf()
        &&& self.right.wf()
        &&& self.bottom.wf()
        &&& self.top.wf()
        &&& self.near.wf()
        &&& self.far.wf()
    }

    /// The frustum is exactly the one extracted from the corners `c`.
    pub open spec fn matches(&self, c: FrustumCorners) -> bool {
        &&& self.left.point@ == c.nbl@ && self.left.normal@ == left_normal(c)
        &&& self.right.point@ == c.ftr@ && self.right.normal@ == right_normal(c)
        &&& self.bottom.point@ == c.nbl@ && self.bottom.normal@ == bottom_normal(c)
        &&& self.top.point@ == c.ftr@ && self.top.normal@ == top_normal(c)
        &&& self.near.point@ == c.nbl@ && self.near.normal@ == near_normal(c)
        &&& self.far.point@ == c.ftr@ && self.far.normal@ == far_normal(c)
    }

    /// The volume at `position` lies entirely outside at least one plane.
    pub open spec fn culls<T: BoundingVolume>(&self, volume: T, position: V3) -> bool {
        ||| volume.excluded(position, self.left.point@, self.left.normal@)
        ||| volume.excluded(position, self.right.point@, self.right.normal@)
        ||| volume.excluded(position, self.bottom.point@, self.bottom.normal@)
        ||| volume.excluded(position, self.top.point@, self.top.normal@)
        ||| volume.excluded(position, self.near.point@, self.near.normal@)
        ||| volume.excluded(position, self.far.point@, self.far.normal@)
    }
}

/// Culling decision stated over the corners alone, plane by plane in the
/// engine's fixed order.
pub open spec fn corner_planes_cull<T: BoundingVolume>(
    c: FrustumCorners,
    volume: T,
    position: V3,
) -> bool {
    ||| volume.excluded(position, c.nbl@, left_normal(c))
    ||| volume.excluded(position, c.ftr@, right_normal(c))
    ||| volume.excluded(position, c.nbl@, bottom_normal(c))
    ||| volume.excluded(position, c.ftr@, top_normal(c))
    ||| volume.excluded(position, c.nbl@, near_normal(c))
    ||| volume.excluded(position, c.ftr@, far_normal(c))
}

/// A frustum that matches its corners culls exactly what the corner planes
/// cull.
pub proof fn lemma_matches_culls<T: BoundingVolume>(
    f: Frustum,
    c: FrustumCorners,
    volume: T,
    position: V3,
)
    requires
        f.matches(c),
    ensures
        f.culls(volume, position) == corner_planes_cull(c, volume, position),
{
}

/// Computes the six frustum planes from the corners of the viewing volume.
///
/// Each plane's reference point is a corner of its face and its normal is
/// the cross product of two edges of that face, oriented outward.
pub fn extract_planes(c: &FrustumCorners) -> (f: Frustum)
    requires
        c.wf(),
    ensures
        f.wf(),
        f.matches(*c),
{
    let near_n = c.nbr.diff(&c.nbl).cross(&c.ntl.diff(&c.nbl));
    let far_n = c.fbr.diff(&c.ftr).cross(&c.ftl.diff(&c.ftr));
    let top_n = c.ftl.diff(&c.ftr).cross(&c.ntr.diff(&c.ftr));
    let bottom_n = c.fbl.diff(&c.nbl).cross(&c.nbr.diff(&c.nbl));
    let right_n = c.ntr.diff(&c.ftr).cross(&c.fbr.diff(&c.ftr));
    let left_n = c.ntl.diff(&c.nbl).cross(&c.fbl.diff(&c.nbl));
    Frustum {
        left: Plane { point: c.nbl, normal: left_n },
        right: Plane { point: c.ftr, normal: right_n },
        bottom: Plane { point: c.nbl, normal: bottom_n },
        top: Plane { point: c.ftr, normal: top_n },
        near: Plane { point: c.nbl, normal: near_n },
        far: Plane { point: c.ftr, normal: far_n },
    }
}

/// Builds the corners of a symmetric perspective (or, with equal near and
/// far half extents, orthographic) viewing volume for a camera at `pos`
/// looking along `+z` with `+y` up in a right-handed world, so screen-left
/// lies toward `+x`.  The near face sits at depth `near` with half extents
/// `near_half_w` and `near_half_h`; the far face likewise.
pub fn symmetric_perspective_corners(
    pos: &Vec3I,
    near: i64,
    far: i64,
    near_half_w: i64,
    near_half_h: i64,
    far_half_w: i64,
    far_half_h: i64,
) -> (c: FrustumCorners)
    requires
        0 < near < far,
        0 < near_half_w <= far_half_w,
        0 < near_half_h <= far_half_h,
        -(WORLD_MAX as int) <= pos@.x - far_half_w,
        pos@.x + far_half_w <= WORLD_MAX as int,
        -(WORLD_MAX as int) <= pos@.y - far_half_h,
        pos@.y + far_half_h <= WORLD_MAX as int,
        -(WORLD_MAX as int) <= pos@.z,
        pos@.z + far <= WORLD_MAX as int,
    ensures
        c.wf(),
        c.nbl@ == vadd(pos@, (V3 { x: near_half_w as int, y: -(near_half_h as int), z: near as int })),
        c.nbr@ == vadd(pos@, (V3 { x: -(near_half_w as int), y: -(near_half_h as int), z: near as int })),
        c.ntl@ == vadd(pos@, (V3 { x: near_half_w as int, y: near_half_h as int, z: near as int })),
        c.ntr@ == vadd(pos@, (V3 { x: -(near_half_w as int), y: near_half_h as int, z: near as int })),
        c.fbl@ == vadd(pos@, (V3 { x: far_half_w as int, y: -(far_half_h as int), z: far as int })),
        c.fbr@ == vadd(pos@, (V3 { x: -(far_half_w as int), y: -(far_half_h as int), z: far as int })),
        c.ftl@ == vadd(pos@, (V3 { x: far_half_w as int, y: far_half_h as int, z: far as int })),
        c.ftr@ == vadd(pos@, (V3 { x: -(far_half_w as int), y: far_half_h as int, z: far as int })),
{
    FrustumCorners {
        nbl: Vec3I { x: pos.x + near_half_w, y: pos.y - near_half_h, z: pos.z + near },
        nbr: Vec3I { x: pos.x - near_half_w, y: pos.y - near_half_h, z: pos.z + near },
        ntl: Vec3I { x: pos.x + near_half_w, y: pos.y + near_half_h, z: pos.z + near },
        ntr: Vec3I { x: pos.x - near_half_w, y: pos.y + near_half_h, z: pos.z + near },
        fbl: Vec3I { x: pos.x + far_half_w, y: pos.y - far_half_h, z: pos.z + far },
        fbr: Vec3I { x: pos.x - far_half_w, y: pos.y - far_half_h, z: pos.z + far },
        ftl: Vec3I { x: pos.x + far_half_w, y: pos.y + far_half_h, z: pos.z + far },
        ftr: Vec3I { x: pos.x - far_half_w, y: pos.y + far_half_h, z: pos.z + far },
    }
}

/// Tests the volume at `position` against the six planes in the fixed
/// order, stopping at the first plane that excludes it.
pub fn outside_any<T: BoundingVolume>(f: &Frustum, volume: &T, position: &Vec3I) -> (r: bool)
    requires
        f.wf(),
        volume.wf(),
        in_range(position@, WORLD_MAX as int),
    ensures
        r == f.culls(*volume, position@),
{
    volume.outside_plane(position, &f.left.point, &f.left.normal) || volume.outside_plane(
        position,
        &f.right.point,
        &f.right.normal,
    ) || volume.outside_plane(position, &f.bottom.point, &f.bottom.normal)
        || volume.outside_plane(position, &f.top.point, &f.top.normal) || volume.outside_plane(
        position,
        &f.near.point,
        &f.near.normal,
    ) || volume.outside_plane(position, &f.far.point, &f.far.normal)
}

} // verus!
