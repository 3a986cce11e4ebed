//! The engine's global guarantees, each stated and proved over the same
//! spec functions the executable functions' contracts use.

use vstd::prelude::*;

use crate::culling::CameraRecord;
use crate::culling::CullObject;
use crate::culling::multi_pass_flags;
use crate::frustum::Frustum;
use crate::frustum::FrustumCorners;
use crate::frustum::bottom_normal;
use crate::frustum::corner_planes_cull;
use crate::frustum::far_normal;
use crate::frustum::left_normal;
use crate::frustum::near_normal;
use crate::frustum::right_normal;
use crate::frustum::top_normal;
use crate::vec3::V3;
use crate::vec3::vadd;
use crate::vec3::vdot;
use crate::vec3::vscale;
use crate::vec3::vsub;
use crate::volume::BoundingVolume;
use crate::volume::Sphere;

verus! {

/// The corners `c` describe a symmetric viewing volume at `pos` looking
/// along `+z` with `+y` up and screen-left toward `+x`, exactly as
/// `symmetric_perspective_corners` builds them.
pub open spec fn symmetric_camera(
    c: FrustumCorners,
    pos: V3,
    near: int,
    far: int,
    nhw: int,
    nhh: int,
    fhw: int,
    fhh: int,
) -> bool {
    &&& 0 < near < far
    &&& 0 < nhw <= fhw
    &&& 0 < nhh <= fhh
    &&& c.nbl@ == vadd(pos, V3 { x: nhw, y: -nhh, z: near })
    &&& c.nbr@ == vadd(pos, V3 { x: -nhw, y: -nhh, z: near })
    &&& c.ntl@ == vadd(pos, V3 { x: nhw, y: nhh, z: near })
    &&& c.ntr@ == vadd(pos, V3 { x: -nhw, y: nhh, z: near })
    &&& c.fbl@ == vadd(pos, V3 { x: fhw, y: -fhh, z: far })
    &&& c.fbr@ == vadd(pos, V3 { x: -fhw, y: -fhh, z: far })
    &&& c.ftl@ == vadd(pos, V3 { x: fhw, y: fhh, z: far })
    &&& c.ftr@ == vadd(pos, V3 { x: -fhw, y: fhh, z: far })
}

/// The point `q` lies strictly inside that viewing volume: strictly between
/// the near and far depths, and strictly within the lateral pyramid, whose
/// half width at depth `zz` interpolates the near and far half extents
/// (every comparison is multiplied through by `far - near`, so no division
/// appears).
pub open spec fn strictly_inside(
    pos: V3,
    near: int,
    far: int,
    nhw: int,
    nhh: int,
    fhw: int,
    fhh: int,
    q: V3,
) -> bool {
    let dx = q.x - pos.x;
    let dy = q.y - pos.y;
    let zz = q.z - pos.z;
    &&& near < zz < far
    &&& (far - near) * dx < nhw * (far - zz) + fhw * (zz - near)
    &&& (far - near) * (-dx) < nhw * (far - zz) + fhw * (zz - near)
    &&& (far - near) * dy < nhh * (far - zz) + fhh * (zz - near)
    &&& (far - near) * (-dy) < nhh * (far - zz) + fhh * (zz - near)
}

/// Plane outward-normal invariant: all six planes extracted from a
/// well-formed symmetric camera have outward normals, in that every point
/// strictly inside the viewing volume has a strictly negative signed
/// distance to every plane, and so is classified non-outside by each of the
/// six; in particular a point volume at `q` is never culled.
pub proof fn lemma_inside_point_not_outside(
    c: FrustumCorners,
    pos: V3,
    near: int,
    far: int,
    nhw: int,
    nhh: int,
    fhw: int,
    fhh: int,
    q: V3,
)
    requires
        symmetric_camera(c, pos, near, far, nhw, nhh, fhw, fhh),
        strictly_inside(pos, near, far, nhw, nhh, fhw, fhh, q),
    ensures
        vdot(left_normal(c), vsub(q, c.nbl@)) < 0,
        vdot(right_normal(c), vsub(q, c.ftr@)) < 0,
        vdot(bottom_normal(c), vsub(q, c.nbl@)) < 0,
        vdot(top_normal(c), vsub(q, c.ftr@)) < 0,
        vdot(near_normal(c), vsub(q, c.nbl@)) < 0,
        vdot(far_normal(c), vsub(q, c.ftr@)) < 0,
        !corner_planes_cull(c, (Sphere { radius: 0 }), q),
{
    let dx = q.x - pos.x;
    let dy = q.y - pos.y;
    let zz = q.z - pos.z;
    // Left plane.
    let la = vsub(c.ntl@, c.nbl@);
    let lb = vsub(c.fbl@, c.nbl@);
    let ln = left_normal(c);
    let lw = vsub(q, c.nbl@);
    let ldist = vdot(ln, lw);
    assert(ldist < 0) by (nonlinear_arith)
        requires
            0 < nhh,
            (far - near) * dx < nhw * (far - zz) + fhw * (zz - near),
            ldist == ln.x * lw.x + ln.y * lw.y + ln.z * lw.z,
            ln.x == la.y * lb.z - la.z * lb.y,
            ln.y == la.z * lb.x - la.x * lb.z,
            ln.z == la.x * lb.y - la.y * lb.x,
            la.x == 0,
            la.y == 2 * nhh,
            la.z == 0,
            lb.x == fhw - nhw,
            lb.y == nhh - fhh,
            lb.z == far - near,
            lw.x == dx - nhw,
            lw.z == zz - near,
    ;
    // Right plane.
    let ra = vsub(c.ntr@, c.ftr@);
    let rb = vsub(c.fbr@, c.ftr@);
    let rn = right_normal(c);
    let rw = vsub(q, c.ftr@);
    let rdist = vdot(rn, rw);
    let rbracket = (far - near) * (dx + fhw) + (fhw - nhw) * (zz - far);
    assert(rbracket == (far - near) * dx + (nhw * (far - zz) + fhw * (zz - near)) && (far - near) * (
    -dx) == -((far - near) * dx)) by (nonlinear_arith)
        requires
            rbracket == (far - near) * (dx + fhw) + (fhw - nhw) * (zz - far),
    ;
    assert(rbracket > 0);
    assert(rdist == (-2 * fhh) * rbracket) by (nonlinear_arith)
        requires
            rdist == rn.x * rw.x + rn.y * rw.y + rn.z * rw.z,
            rn.x == ra.y * rb.z - ra.z * rb.y,
            rn.y == ra.z * rb.x - ra.x * rb.z,
            rn.z == ra.x * rb.y - ra.y * rb.x,
            ra.x == fhw - nhw,
            ra.y == nhh - fhh,
            ra.z == near - far,
            rb.x == 0,
            rb.y == -2 * fhh,
            rb.z == 0,
            rw.x == dx + fhw,
            rw.z == zz - far,
            rbracket == (far - near) * (dx + fhw) + (fhw - nhw) * (zz - far),
    ;
    assert(rdist < 0) by (nonlinear_arith)
        requires
            rdist == (-2 * fhh) * rbracket,
            0 < fhh,
            rbracket > 0,
    ;
    // Bottom plane.
    let ba = vsub(c.fbl@, c.nbl@);
    let bb = vsub(c.nbr@, c.nbl@);
    let bn = bottom_normal(c);
    let bw = vsub(q, c.nbl@);
    let bdist = vdot(bn, bw);
    let bbracket = (far - near) * (dy + nhh) - (nhh - fhh) * (zz - near);
    assert(bbracket == (far - near) * dy + (nhh * (far - zz) + fhh * (zz - near)) && (far - near) * (
    -dy) == -((far - near) * dy)) by (nonlinear_arith)
        requires
            bbracket == (far - near) * (dy + nhh) - (nhh - fhh) * (zz - near),
    ;
    assert(bbracket > 0);
    assert(bdist == (-2 * nhw) * bbracket) by (nonlinear_arith)
        requires
            bdist == bn.x * bw.x + bn.y * bw.y + bn.z * bw.z,
            bn.x == ba.y * bb.z - ba.z * bb.y,
            bn.y == ba.z * bb.x - ba.x * bb.z,
            bn.z == ba.x * bb.y - ba.y * bb.x,
            ba.x == fhw - nhw,
            ba.y == nhh - fhh,
            ba.z == far - near,
            bb.x == -2 * nhw,
            bb.y == 0,
            bb.z == 0,
            bw.y == dy + nhh,
            bw.z == zz - near,
            bbracket == (far - near) * (dy + nhh) - (nhh - fhh) * (zz - near),
    ;
    assert(bdist < 0) by (nonlinear_arith)
        requires
            bdist == (-2 * nhw) * bbracket,
            0 < nhw,
            bbracket > 0,
    ;
    // Top plane.
    let ta = vsub(c.ftl@, c.ftr@);
    let tb = vsub(c.ntr@, c.ftr@);
    let tn = top_normal(c);
    let tw = vsub(q, c.ftr@);
    let tdist = vdot(tn, tw);
    let tbracket = (far - near) * (dy - fhh) + (nhh - fhh) * (zz - far);
    assert(tbracket == (far - near) * dy - (nhh * (far - zz) + fhh * (zz - near))) by (
    nonlinear_arith)
        requires
            tbracket == (far - near) * (dy - fhh) + (nhh - fhh) * (zz - far),
    ;
    assert(tbracket < 0);
    assert(tdist == (2 * fhw) * tbracket) by (nonlinear_arith)
        requires
            tdist == tn.x * tw.x + tn.y * tw.y + tn.z * tw.z,
            tn.x == ta.y * tb.z - ta.z * tb.y,
            tn.y == ta.z * tb.x - ta.x * tb.z,
            tn.z == ta.x * tb.y - ta.y * tb.x,
            ta.x == 2 * fhw,
            ta.y == 0,
            ta.z == 0,
            tb.x == fhw - nhw,
            tb.y == nhh - fhh,
            tb.z == near - far,
            tw.y == dy - fhh,
            tw.z == zz - far,
            tbracket == (far - near) * (dy - fhh) + (nhh - fhh) * (zz - far),
    ;
    assert(tdist < 0) by (nonlinear_arith)
        requires
            tdist == (2 * fhw) * tbracket,
            0 < fhw,
            tbracket < 0,
    ;
    // Near plane.
    let na = vsub(c.nbr@, c.nbl@);
    let nb = vsub(c.ntl@, c.nbl@);
    let nn = near_normal(c);
    let nw = vsub(q, c.nbl@);
    let ndist = vdot(nn, nw);
    assert(ndist < 0) by (nonlinear_arith)
        requires
            0 < nhw,
            0 < nhh,
            near < zz,
            ndist == nn.x * nw.x + nn.y * nw.y + nn.z * nw.z,
            nn.x == na.y * nb.z - na.z * nb.y,
            nn.y == na.z * nb.x - na.x * nb.z,
            nn.z == na.x * nb.y - na.y * nb.x,
            na.x == -2 * nhw,
            na.y == 0,
            na.z == 0,
            nb.x == 0,
            nb.y == 2 * nhh,
            nb.z == 0,
            nw.z == zz - near,
    ;
    // Far plane.
    let fa = vsub(c.fbr@, c.ftr@);
    let fb = vsub(c.ftl@, c.ftr@);
    let fn0 = far_normal(c);
    let fw = vsub(q, c.ftr@);
    let fdist = vdot(fn0, fw);
    assert(fdist < 0) by (nonlinear_arith)
        requires
            0 < fhw,
            0 < fhh,
            zz < far,
            fdist == fn0.x * fw.x + fn0.y * fw.y + fn0.z * fw.z,
            fn0.x == fa.y * fb.z - fa.z * fb.y,
            fn0.y == fa.z * fb.x - fa.x * fb.z,
            fn0.z == fa.x * fb.y - fa.y * fb.x,
            fa.x == 0,
            fa.y == -2 * fhh,
            fa.z == 0,
            fb.x == 2 * fhw,
            fb.y == 0,
            fb.z == 0,
            fw.z == zz - far,
    ;
}

/// Every object's flag is a pure function of that object's own volume and
/// position and of the camera's planes, so two passes over the same static
/// scene agree flag for flag, whatever batch partition each run used: the
/// flag sequences either pass may produce are equal.
pub proof fn lemma_batch_partition_independence<T: BoundingVolume>(
    f: Frustum,
    objects: Seq<CullObject<T>>,
    v1: Seq<bool>,
    v2: Seq<bool>,
)
    requires
        v1.len() == objects.len(),
        v2.len() == objects.len(),
        forall|j: int|
            0 <= j < objects.len() ==> v1[j] == !f.culls(
                (#[trigger] objects[j]).volume,
                objects[j].position@,
            ),
        forall|j: int|
            0 <= j < objects.len() ==> v2[j] == !f.culls(
                (#[trigger] objects[j]).volume,
                objects[j].position@,
            ),
    ensures
        v1 == v2,
{
    assert forall|j: int| 0 <= j < v1.len() implies v1[j] == v2[j] by {
        assert(v1[j] == !f.culls((#[trigger] objects[j]).volume, objects[j].position@));
    }
    assert(v1 =~= v2);
}

/// Running the culling stage twice in succession with no changes to the
/// cameras or the objects leaves the flags of the first run untouched.
pub proof fn lemma_culling_idempotent<T: BoundingVolume>(
    cameras: Seq<CameraRecord>,
    objects: Seq<CullObject<T>>,
    initial: Seq<bool>,
)
    ensures
        multi_pass_flags(cameras, objects, multi_pass_flags(cameras, objects, initial))
            == multi_pass_flags(cameras, objects, initial),
    decreases cameras.len(),
{
    if cameras.len() == 0 {
    } else if cameras.last().eligible() {
    } else {
        lemma_culling_idempotent(cameras.drop_last(), objects, initial);
    }
}

/// A sphere that one plane fully excludes stays excluded by that plane as
/// its center moves any distance along a direction that does not point back
/// against the plane's outward normal.  Along a camera's forward axis this
/// is exactly the far plane's situation, so a sphere leaving the frustum
/// through the far plane never flickers back in.
pub proof fn lemma_sphere_outside_monotone(
    s: Sphere,
    center: V3,
    plane_point: V3,
    plane_normal: V3,
    dir: V3,
    k: int,
)
    requires
        s.excluded(center, plane_point, plane_normal),
        vdot(plane_normal, dir) >= 0,
        k >= 0,
    ensures
        s.excluded(vadd(center, vscale(k, dir)), plane_point, plane_normal),
{
    let d = vdot(plane_normal, vsub(center, plane_point));
    let q = vdot(plane_normal, dir);
    let moved = vadd(center, vscale(k, dir));
    let dm = vdot(plane_normal, vsub(moved, plane_point));
    let nx = plane_normal.x;
    let ny = plane_normal.y;
    let nz = plane_normal.z;
    assert(nx * (center.x + k * dir.x - plane_point.x) == nx * (center.x - plane_point.x) + k * (nx
        * dir.x)) by (nonlinear_arith);
    assert(ny * (center.y + k * dir.y - plane_point.y) == ny * (center.y - plane_point.y) + k * (ny
        * dir.y)) by (nonlinear_arith);
    assert(nz * (center.z + k * dir.z - plane_point.z) == nz * (center.z - plane_point.z) + k * (nz
        * dir.z)) by (nonlinear_arith);
    assert(k * q == k * (nx * dir.x) + k * (ny * dir.y) + k * (nz * dir.z)) by (nonlinear_arith)
        requires
            q == nx * dir.x + ny * dir.y + nz * dir.z,
    ;
    assert(dm == d + k * q);
    assert(k * q >= 0) by (nonlinear_arith)
        requires
            k >= 0,
            q >= 0,
    ;
    assert(dm * dm >= d * d) by (nonlinear_arith)
        requires
            0 < d <= dm,
    ;
}

/// Reflection of a vector across the plane `x == 0`.
pub open spec fn mirror_x(v: V3) -> V3 {
    V3 { x: -v.x, y: v.y, z: v.z }
}

/// Reflection of a vector across the plane `y == 0`.
pub open spec fn mirror_y(v: V3) -> V3 {
    V3 { x: v.x, y: -v.y, z: v.z }
}

/// Axis-aligned sanity: for a symmetric camera the left and right plane
/// normals are mirror images of one another across `x == 0`, and the bottom
/// and top normals across `y == 0`, each up to the strictly positive scale
/// factors written below (the extracted normals are unnormalized; scaling
/// each side by the other's face height or width aligns their lengths, and
/// for an orthographic volume the scales agree and the normals are exact
/// mirror images).
pub proof fn lemma_symmetric_camera_mirror_normals(
    c: FrustumCorners,
    pos: V3,
    near: int,
    far: int,
    nhw: int,
    nhh: int,
    fhw: int,
    fhh: int,
)
    requires
        symmetric_camera(c, pos, near, far, nhw, nhh, fhw, fhh),
    ensures
        vscale(2 * fhh, left_normal(c)) == vscale(2 * nhh, mirror_x(right_normal(c))),
        vscale(2 * fhw, bottom_normal(c)) == vscale(2 * nhw, mirror_y(top_normal(c))),
{
    let la = vsub(c.ntl@, c.nbl@);
    let lb = vsub(c.fbl@, c.nbl@);
    let ln = left_normal(c);
    let ra = vsub(c.ntr@, c.ftr@);
    let rb = vsub(c.fbr@, c.ftr@);
    let rn = right_normal(c);
    assert((2 * fhh) * ln.x == (2 * nhh) * (-rn.x) && (2 * fhh) * ln.y == (2 * nhh) * rn.y && (2
        * fhh) * ln.z == (2 * nhh) * rn.z) by (nonlinear_arith)
        requires
            ln.x == la.y * lb.z - la.z * lb.y,
            ln.y == la.z * lb.x - la.x * lb.z,
            ln.z == la.x * lb.y - la.y * lb.x,
            la.x == 0,
            la.y == 2 * nhh,
            la.z == 0,
            lb.x == fhw - nhw,
            lb.y == nhh - fhh,
            lb.z == far - near,
            rn.x == ra.y * rb.z - ra.z * rb.y,
            rn.y == ra.z * rb.x - ra.x * rb.z,
            rn.z == ra.x * rb.y - ra.y * rb.x,
            ra.x == fhw - nhw,
            ra.y == nhh - fhh,
            ra.z == near - far,
            rb.x == 0,
            rb.y == -2 * fhh,
            rb.z == 0,
    ;
    let ba = vsub(c.fbl@, c.nbl@);
    let bb = vsub(c.nbr@, c.nbl@);
    let bn = bottom_normal(c);
    let ta = vsub(c.ftl@, c.ftr@);
    let tb = vsub(c.ntr@, c.ftr@);
    let tn = top_normal(c);
    assert((2 * fhw) * bn.x == (2 * nhw) * tn.x && (2 * fhw) * bn.y == (2 * nhw) * (-tn.y) && (2
        * fhw) * bn.z == (2 * nhw) * tn.z) by (nonlinear_arith)
        requires
            bn.x == ba.y * bb.z - ba.z * bb.y,
            bn.y == ba.z * bb.x - ba.x * bb.z,
            bn.z == ba.x * bb.y - ba.y * bb.x,
            ba.x == fhw - nhw,
            ba.y == nhh - fhh,
            ba.z == far - near,
            bb.x == -2 * nhw,
            bb.y == 0,
            bb.z == 0,
            tn.x == ta.y * tb.z - ta.z * tb.y,
            tn.y == ta.z * tb.x - ta.x * tb.z,
            tn.z == ta.x * tb.y - ta.y * tb.x,
            ta.x == 2 * fhw,
            ta.y == 0,
            ta.z == 0,
            tb.x == fhw - nhw,
            tb.y == nhh - fhh,
            tb.z == near - far,
    ;
}

/// A sphere that a plane does not exclude stays unexcluded as its center
/// moves along a direction that does not advance along the plane's outward
/// normal.
pub proof fn lemma_sphere_not_outside_monotone(
    s: Sphere,
    center: V3,
    plane_point: V3,
    plane_normal: V3,
    dir: V3,
    k: int,
)
    requires
        !s.excluded(center, plane_point, plane_normal),
        vdot(plane_normal, dir) <= 0,
        k >= 0,
    ensures
        !s.excluded(vadd(center, vscale(k, dir)), plane_point, plane_normal),
{
    let d = vdot(plane_normal, vsub(center, plane_point));
    let q = vdot(plane_normal, dir);
    let moved = vadd(center, vscale(k, dir));
    let dm = vdot(plane_normal, vsub(moved, plane_point));
    let nx = plane_normal.x;
    let ny = plane_normal.y;
    let nz = plane_normal.z;
    assert(nx * (center.x + k * dir.x - plane_point.x) == nx * (center.x - plane_point.x) + k * (nx
        * dir.x)) by (nonlinear_arith);
    assert(ny * (center.y + k * dir.y - plane_point.y) == ny * (center.y - plane_point.y) + k * (ny
        * dir.y)) by (nonlinear_arith);
    assert(nz * (center.z + k * dir.z - plane_point.z) == nz * (center.z - plane_point.z) + k * (nz
        * dir.z)) by (nonlinear_arith);
    assert(k * q == k * (nx * dir.x) + k * (ny * dir.y) + k * (nz * dir.z)) by (nonlinear_arith)
        requires
            q == nx * dir.x + ny * dir.y + nz * dir.z,
    ;
    assert(dm == d + k * q);
    assert(k * q <= 0) by (nonlinear_arith)
        requires
            k >= 0,
            q <= 0,
    ;
    if dm > 0 {
        assert(d * d >= dm * dm) by (nonlinear_arith)
            requires
                0 < dm <= d,
        ;
    }
}

/// Monotonic culling under translation: a sphere that is visible from a
/// symmetric camera and then moves forward along the camera's view axis is,
/// once culled, culled at every later position too -- its classification
/// flips at most once, with no flicker.  Moving forward, only the far plane
/// can newly exclude it, and the far plane's test is monotone in the
/// travelled distance.
pub proof fn lemma_forward_culling_monotone(
    c: FrustumCorners,
    pos: V3,
    near: int,
    far: int,
    nhw: int,
    nhh: int,
    fhw: int,
    fhh: int,
    s: Sphere,
    center: V3,
    k1: int,
    k2: int,
)
    requires
        symmetric_camera(c, pos, near, far, nhw, nhh, fhw, fhh),
        !corner_planes_cull(c, s, center),
        corner_planes_cull(c, s, vadd(center, vscale(k1, (V3 { x: 0, y: 0, z: 1 })))),
        0 <= k1 <= k2,
    ensures
        corner_planes_cull(c, s, vadd(center, vscale(k2, (V3 { x: 0, y: 0, z: 1 })))),
{
    let fwd = V3 { x: 0, y: 0, z: 1 };
    let moved1 = vadd(center, vscale(k1, fwd));
    let moved2 = vadd(center, vscale(k2, fwd));
    // Forward components of the six normals: the five planes other than the
    // far plane never gain on a sphere moving forward.
    let la = vsub(c.ntl@, c.nbl@);
    let lb = vsub(c.fbl@, c.nbl@);
    let ln = left_normal(c);
    assert(ln.z <= 0) by (nonlinear_arith)
        requires
            ln.z == la.x * lb.y - la.y * lb.x,
            la.x == 0,
            la.y == 2 * nhh,
            lb.x == fhw - nhw,
            0 < nhh,
            nhw <= fhw,
    ;
    let ra = vsub(c.ntr@, c.ftr@);
    let rb = vsub(c.fbr@, c.ftr@);
    let rn = right_normal(c);
    assert(rn.z <= 0) by (nonlinear_arith)
        requires
            rn.z == ra.x * rb.y - ra.y * rb.x,
            ra.x == fhw - nhw,
            rb.y == -2 * fhh,
            rb.x == 0,
            0 < fhh,
            nhw <= fhw,
    ;
    let ba = vsub(c.fbl@, c.nbl@);
    let bb = vsub(c.nbr@, c.nbl@);
    let bn = bottom_normal(c);
    assert(bn.z <= 0) by (nonlinear_arith)
        requires
            bn.z == ba.x * bb.y - ba.y * bb.x,
            ba.y == nhh - fhh,
            bb.x == -2 * nhw,
            bb.y == 0,
            0 < nhw,
            nhh <= fhh,
    ;
    let ta = vsub(c.ftl@, c.ftr@);
    let tb = vsub(c.ntr@, c.ftr@);
    let tn = top_normal(c);
    assert(tn.z <= 0) by (nonlinear_arith)
        requires
            tn.z == ta.x * tb.y - ta.y * tb.x,
            ta.x == 2 * fhw,
            ta.y == 0,
            tb.y == nhh - fhh,
            0 < fhw,
            nhh <= fhh,
    ;
    let na = vsub(c.nbr@, c.nbl@);
    let nb = vsub(c.ntl@, c.nbl@);
    let nn = near_normal(c);
    assert(nn.z <= 0) by (nonlinear_arith)
        requires
            nn.z == na.x * nb.y - na.y * nb.x,
            na.x == -2 * nhw,
            na.y == 0,
            nb.y == 2 * nhh,
            0 < nhw,
            0 < nhh,
    ;
    let fa = vsub(c.fbr@, c.ftr@);
    let fb = vsub(c.ftl@, c.ftr@);
    let fno = far_normal(c);
    assert(fno.z >= 0) by (nonlinear_arith)
        requires
            fno.z == fa.x * fb.y - fa.y * fb.x,
            fa.x == 0,
            fa.y == -2 * fhh,
            fb.x == 2 * fhw,
            0 < fhh,
            0 < fhw,
    ;
    // Forward motion cannot push the sphere out of the five planes it was
    // inside of, so at the first culled position the far plane excludes it.
    lemma_sphere_not_outside_monotone(s, center, c.nbl@, ln, fwd, k1);
    lemma_sphere_not_outside_monotone(s, center, c.ftr@, rn, fwd, k1);
    lemma_sphere_not_outside_monotone(s, center, c.nbl@, bn, fwd, k1);
    lemma_sphere_not_outside_monotone(s, center, c.ftr@, tn, fwd, k1);
    lemma_sphere_not_outside_monotone(s, center, c.nbl@, nn, fwd, k1);
    assert(s.excluded(moved1, c.ftr@, fno));
    // The far plane keeps excluding it from there on.
    lemma_sphere_outside_monotone(s, moved1, c.ftr@, fno, fwd, k2 - k1);
    assert(vadd(moved1, vscale(k2 - k1, fwd)) == moved2);
}

} // verus!
