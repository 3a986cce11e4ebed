//! End-to-end culling scenarios.
//!
//! World coordinates are fixed point with 1000 units per world unit, so a
//! camera with near 0.1 and far 100 has near = 100 and far = 100_000.

use frustum_culling::culling::frustum_culling;
use frustum_culling::culling::CameraRecord;
use frustum_culling::culling::CullObject;
use frustum_culling::culling::FrustumCulling;
use frustum_culling::frustum::symmetric_perspective_corners;
use frustum_culling::frustum::FrustumCorners;
use frustum_culling::vec3::Vec3I;
use frustum_culling::volume::Aabb;
use frustum_culling::volume::Obb;
use frustum_culling::volume::Sphere;

fn v(x: i64, y: i64, z: i64) -> Vec3I {
    Vec3I { x, y, z }
}

/// Camera at the origin facing `+z`, 90 degree vertical field of view,
/// aspect 1, near 0.1, far 100, in fixed point.
fn standard_corners() -> FrustumCorners {
    symmetric_perspective_corners(&v(0, 0, 0), 100, 100_000, 100, 100, 100_000, 100_000)
}

fn standard_camera() -> CameraRecord {
    CameraRecord { corners: standard_corners(), marker: Some(FrustumCulling) }
}

fn sphere_at(x: i64, y: i64, z: i64, radius: i64) -> CullObject<Sphere> {
    CullObject { volume: Sphere { radius }, position: v(x, y, z) }
}

fn cull_spheres(objects: &Vec<CullObject<Sphere>>, batch_size: usize) -> Vec<bool> {
    let cameras = vec![standard_camera()];
    let mut visible = vec![false; objects.len()];
    frustum_culling(&cameras, objects, &mut visible, batch_size);
    visible
}

#[test]
fn concrete_scenario_three_unit_spheres() {
    let objects = vec![
        sphere_at(0, 0, 50_000, 1000),
        sphere_at(0, 0, 150_000, 1000),
        sphere_at(0, 0, -5_000, 1000),
    ];
    let visible = cull_spheres(&objects, 32);
    assert_eq!(visible, vec![true, false, false]);
}

#[test]
fn containment_at_camera_position() {
    // A sphere centered exactly on the camera, with the camera looking at
    // it, stays visible; one far behind the near plane is invisible.
    let objects = vec![sphere_at(0, 0, 0, 1000), sphere_at(0, 0, -50_000, 1000)];
    let visible = cull_spheres(&objects, 32);
    assert_eq!(visible, vec![true, false]);
}

#[test]
fn monotonic_culling_along_forward_axis() {
    // A sphere of fixed radius walking out along +z flips from visible to
    // invisible exactly once, with no flicker.
    let mut objects = Vec::new();
    let mut z: i64 = 50_000;
    while z <= 150_000 {
        objects.push(sphere_at(0, 0, z, 1000));
        z += 1_000;
    }
    let visible = cull_spheres(&objects, 32);
    assert!(visible[0]);
    assert!(!visible[visible.len() - 1]);
    let mut transitions: usize = 0;
    for i in 1..visible.len() {
        if visible[i] != visible[i - 1] {
            transitions += 1;
            assert!(visible[i - 1] && !visible[i]);
        }
    }
    assert_eq!(transitions, 1);
}

#[test]
fn batch_partition_independence() {
    let mut objects = Vec::new();
    let mut i: i64 = 0;
    while i < 100 {
        objects.push(sphere_at(i * 900 - 45_000, (i % 7) * 1000, i * 1500 - 20_000, 500));
        i += 1;
    }
    let one = cull_spheres(&objects, 1);
    let thirty_two = cull_spheres(&objects, 32);
    let huge = cull_spheres(&objects, 1000);
    assert_eq!(one, thirty_two);
    assert_eq!(one, huge);
}

#[test]
fn culling_pass_is_idempotent() {
    let objects = vec![
        sphere_at(0, 0, 50_000, 1000),
        sphere_at(0, 0, 150_000, 1000),
        sphere_at(30_000, -2_000, 70_000, 2_500),
    ];
    let cameras = vec![standard_camera()];
    let mut visible = vec![false; objects.len()];
    frustum_culling(&cameras, &objects, &mut visible, 32);
    let first = visible.clone();
    frustum_culling(&cameras, &objects, &mut visible, 32);
    assert_eq!(visible, first);
}

#[test]
fn unmarked_camera_is_skipped() {
    let cameras = vec![CameraRecord { corners: standard_corners(), marker: None }];
    let objects = vec![sphere_at(0, 0, 150_000, 1000)];
    let mut visible = vec![true];
    frustum_culling(&cameras, &objects, &mut visible, 32);
    assert_eq!(visible, vec![true]);
}

#[test]
fn no_cameras_leave_flags_untouched() {
    let cameras: Vec<CameraRecord> = Vec::new();
    let objects = vec![sphere_at(0, 0, 50_000, 1000)];
    let mut visible = vec![false];
    frustum_culling(&cameras, &objects, &mut visible, 32);
    assert_eq!(visible, vec![false]);
}

#[test]
fn last_marked_camera_wins() {
    // The first camera sees the object, the second (shifted far away along
    // +x) does not: the object ends up invisible.
    let moved = symmetric_perspective_corners(
        &v(250_000, 0, 0),
        100,
        100_000,
        100,
        100,
        100_000,
        100_000,
    );
    let cameras = vec![
        standard_camera(),
        CameraRecord { corners: moved, marker: Some(FrustumCulling) },
    ];
    let objects = vec![sphere_at(0, 0, 50_000, 1000)];
    let mut visible = vec![false];
    frustum_culling(&cameras, &objects, &mut visible, 32);
    assert_eq!(visible, vec![false]);
}

#[test]
fn degenerate_frustum_excludes_nothing() {
    // All eight corners coincide: every face has a zero-length normal, and
    // a zero normal must exclude nothing rather than cull everything.
    let corners = FrustumCorners {
        nbl: v(0, 0, 0),
        nbr: v(0, 0, 0),
        ntl: v(0, 0, 0),
        ntr: v(0, 0, 0),
        fbl: v(0, 0, 0),
        fbr: v(0, 0, 0),
        ftl: v(0, 0, 0),
        ftr: v(0, 0, 0),
    };
    let cameras = vec![CameraRecord { corners, marker: Some(FrustumCulling) }];
    let objects = vec![sphere_at(300_000, 300_000, -300_000, 1)];
    let mut visible = vec![false];
    frustum_culling(&cameras, &objects, &mut visible, 32);
    assert_eq!(visible, vec![true]);
}

#[test]
fn aabb_classification() {
    let cameras = vec![standard_camera()];
    let objects = vec![
        CullObject { volume: Aabb { half_extents: v(1000, 1000, 1000) }, position: v(0, 0, 50_000) },
        CullObject {
            volume: Aabb { half_extents: v(1000, 1000, 1000) },
            position: v(0, 0, 150_000),
        },
        CullObject { volume: Aabb { half_extents: v(1000, 1000, 1000) }, position: v(0, 0, -5_000) },
    ];
    let mut visible = vec![false; objects.len()];
    frustum_culling(&cameras, &objects, &mut visible, 32);
    assert_eq!(visible, vec![true, false, false]);
}

#[test]
fn aabb_support_point_straddles_plane() {
    // A box centered just outside the far plane whose corner still reaches
    // back inside must stay visible: the support-point test is conservative.
    let cameras = vec![standard_camera()];
    let objects = vec![
        CullObject {
            volume: Aabb { half_extents: v(500, 500, 2_000) },
            position: v(0, 0, 101_000),
        },
        CullObject { volume: Aabb { half_extents: v(500, 500, 500) }, position: v(0, 0, 101_000) },
    ];
    let mut visible = vec![false; objects.len()];
    frustum_culling(&cameras, &objects, &mut visible, 32);
    assert_eq!(visible, vec![true, false]);
}

#[test]
fn obb_classification() {
    // A box rotated 45 degrees about z, axes scaled by its half extents.
    let axes = (v(707, 707, 0), v(-707, 707, 0), v(0, 0, 1000));
    let cameras = vec![standard_camera()];
    let objects = vec![
        CullObject {
            volume: Obb { axis_x: axes.0, axis_y: axes.1, axis_z: axes.2 },
            position: v(0, 0, 50_000),
        },
        CullObject {
            volume: Obb { axis_x: axes.0, axis_y: axes.1, axis_z: axes.2 },
            position: v(0, 0, 150_000),
        },
    ];
    let mut visible = vec![false; objects.len()];
    frustum_culling(&cameras, &objects, &mut visible, 32);
    assert_eq!(visible, vec![true, false]);
}
