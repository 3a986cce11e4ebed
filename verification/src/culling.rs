//! The per-frame culling pass: cameras in, visibility flags out.
//!
//! Cameras are processed one at a time, in order; for each camera carrying
//! the culling marker, every object's bounding volume is tested against the
//! camera's six frustum planes and the object's visibility flag is
//! overwritten with the result.  Each flag is a pure function of that
//! object's own volume and position and of the current camera, so the pass
//! may hand disjoint batches of objects to different workers; the engine
//! partitions the population into fixed-size batches and the result is the
//! same for every batch size.  When several marked cameras are present the
//! later pass overwrites the earlier one: the flags reflect the last marked
//! camera.

use vstd::prelude::*;
use vstd::pervasive::VecAdditionalExecFns;

use crate::frustum::Frustum;
use crate::frustum::FrustumCorners;
use crate::frustum::corner_planes_cull;
use crate::frustum::extract_planes;
use crate::frustum::lemma_matches_culls;
use crate::frustum::outside_any;
use crate::vec3::Vec3I;
use crate::vec3::WORLD_MAX;
use crate::vec3::in_range;
use crate::volume::BoundingVolume;

verus! {

/// Marker carried by a camera that is a culling viewpoint; cameras without
/// it are ignored by the engine.
#[derive(Clone, Copy, PartialEq, Eq, Structural, Debug)]
pub struct FrustumCulling;

/// One camera as the engine sees it: the corners of its viewing volume and
/// the optional culling marker.
#[derive(Clone, Copy, PartialEq, Eq, Structural, Debug)]
pub struct CameraRecord {
    pub corners: FrustumCorners,
    pub marker: Option<FrustumCulling>,
}

impl CameraRecord {
    /// Only cameras carrying the marker take part in culling.
    pub open spec fn eligible(&self) -> bool {
        self.marker is Some
    }
}

/// One object as the engine sees it: a bounding volume and the world
/// position it is centered on.  The visibility flags live in a separate
/// column, indexed the same way.
#[derive(Clone, Copy, PartialEq, Eq, Structural, Debug)]
pub struct CullObject<T> {
    pub volume: T,
    pub position: Vec3I,
}

impl<T: BoundingVolume> CullObject<T> {
    pub open spec fn wf(&self) -> bool {
        &&& self.volume.wf()
        &&& in_range(self.position@, WORLD_MAX as int)
    }
}

/// The flags one camera's pass writes: object `i` stays visible exactly
/// when no plane of the camera's frustum excludes it.
pub open spec fn pass_flags<T: BoundingVolume>(
    c: FrustumCorners,
    objects: Seq<CullObject<T>>,
) -> Seq<bool> {
    Seq::new(objects.len(), |i: int| !corner_planes_cull(c, objects[i].volume, objects[i].position@))
}

/// The flags after every camera has been processed in order: the last
/// marked camera wins; with no marked camera the flags are untouched.
pub open spec fn multi_pass_flags<T: BoundingVolume>(
    cameras: Seq<CameraRecord>,
    objects: Seq<CullObject<T>>,
    initial: Seq<bool>,
) -> Seq<bool>
    decreases cameras.len(),
{
    if cameras.len() == 0 {
        initial
    } else if cameras.last().eligible() {
        pass_flags(cameras.last().corners, objects)
    } else {
        multi_pass_flags(cameras.drop_last(), objects, initial)
    }
}

/// Classifies the objects of one batch, writing their flags in place and
/// leaving every object outside the batch untouched.
pub fn cull_batch<T: BoundingVolume>(
    f: &Frustum,
    objects: &Vec<CullObject<T>>,
    visible: &mut Vec<bool>,
    start: usize,
    end: usize,
)
    requires
        f.wf(),
        start <= end <= objects@.len(),
        old(visible)@.len() == objects@.len(),
        forall|i: int| 0 <= i < objects@.len() ==> (#[trigger] objects@[i]).wf(),
    ensures
        final(visible)@.len() == objects@.len(),
        forall|j: int|
            0 <= j < objects@.len() && !(start <= j < end) ==> final(visible)@[j] == old(
                visible,
            )@[j],
        forall|j: int|
            start <= j < end ==> final(visible)@[j] == !f.culls(
                (#[trigger] objects@[j]).volume,
                objects@[j].position@,
            ),
{
    let mut i: usize = start;
    while i < end
        invariant
            f.wf(),
            start <= i <= end <= objects@.len(),
            visible@.len() == objects@.len(),
            forall|i2: int| 0 <= i2 < objects@.len() ==> (#[trigger] objects@[i2]).wf(),
            forall|j: int|
                0 <= j < objects@.len() && !(start <= j < i) ==> visible@[j] == old(visible)@[j],
            forall|j: int|
                start <= j < i ==> visible@[j] == !f.culls(
                    (#[trigger] objects@[j]).volume,
                    objects@[j].position@,
                ),
        decreases end - i,
    {
        let o = &objects[i];
        let culled = outside_any(f, &o.volume, &o.position);
        visible.set(i, !culled);
        i = i + 1;
    }
}

/// One camera's whole pass: the object population is partitioned into
/// batches of `batch_size` (each a unit of work for the worker pool) and
/// every object's flag is overwritten with its classification.
pub fn cull_pass<T: BoundingVolume>(
    f: &Frustum,
    objects: &Vec<CullObject<T>>,
    visible: &mut Vec<bool>,
    batch_size: usize,
)
    requires
        f.wf(),
        0 < batch_size,
        old(visible)@.len() == objects@.len(),
        forall|i: int| 0 <= i < objects@.len() ==> (#[trigger] objects@[i]).wf(),
    ensures
        final(visible)@.len() == objects@.len(),
        forall|j: int|
            0 <= j < objects@.len() ==> final(visible)@[j] == !f.culls(
                (#[trigger] objects@[j]).volume,
                objects@[j].position@,
            ),
{
    let len = objects.len();
    let mut start: usize = 0;
    while start < len
        invariant
            f.wf(),
            0 < batch_size,
            start <= len,
            len == objects@.len(),
            visible@.len() == objects@.len(),
            forall|i2: int| 0 <= i2 < objects@.len() ==> (#[trigger] objects@[i2]).wf(),
            forall|j: int|
                0 <= j < start ==> visible@[j] == !f.culls(
                    (#[trigger] objects@[j]).volume,
                    objects@[j].position@,
                ),
        decreases len - start,
    {
        let end = if batch_size < len - start {
            start + batch_size
        } else {
            len
        };
        cull_batch(f, objects, visible, start, end);
        start = end;
    }
}

/// The whole culling stage.
///
/// For each camera carrying the culling marker, in order, the camera's six
/// frustum planes are extracted and every object is classified against
/// them, its flag overwritten in place; unmarked cameras are skipped.  The
/// flags end up as the last marked camera's pass left them, or untouched if
/// no camera is marked.
pub fn frustum_culling<T: BoundingVolume>(
    cameras: &Vec<CameraRecord>,
    objects: &Vec<CullObject<T>>,
    visible: &mut Vec<bool>,
    batch_size: usize,
)
    requires
        0 < batch_size,
        old(visible)@.len() == objects@.len(),
        forall|i: int| 0 <= i < cameras@.len() ==> (#[trigger] cameras@[i]).corners.wf(),
        forall|i: int| 0 <= i < objects@.len() ==> (#[trigger] objects@[i]).wf(),
    ensures
        final(visible)@ == multi_pass_flags(cameras@, objects@, old(visible)@),
{
    let ghost initial = visible@;
    let n = cameras.len();
    let mut k: usize = 0;
    while k < n
        invariant
            0 < batch_size,
            k <= n,
            n == cameras@.len(),
            visible@.len() == objects@.len(),
            forall|i: int| 0 <= i < cameras@.len() ==> (#[trigger] cameras@[i]).corners.wf(),
            forall|i: int| 0 <= i < objects@.len() ==> (#[trigger] objects@[i]).wf(),
            visible@ == multi_pass_flags(cameras@.take(k as int), objects@, initial),
        decreases n - k,
    {
        let cam = &cameras[k];
        if cam.marker.is_some() {
            let f = extract_planes(&cam.corners);
            cull_pass(&f, objects, visible, batch_size);
            proof {
                assert forall|j: int| 0 <= j < objects@.len() implies visible@[j] == pass_flags(
                    cam.corners,
                    objects@,
                )[j] by {
                    lemma_matches_culls(f, cam.corners, objects@[j].volume, objects@[j].position@);
                }
                assert(visible@ =~= pass_flags(cam.corners, objects@));
            }
        }
        proof {
            assert(cameras@.take(k as int + 1).drop_last() =~= cameras@.take(k as int));
            assert(cameras@.take(k as int + 1).last() == cameras@[k as int]);
        }
        k = k + 1;
    }
    proof {
        assert(cameras@.take(n as int) =~= cameras@);
    }
}

} // verus!
