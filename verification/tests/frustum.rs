//! Plane extraction on concrete cameras.

use frustum_culling::frustum::extract_planes;
use frustum_culling::frustum::symmetric_perspective_corners;
use frustum_culling::vec3::Vec3I;
use frustum_culling::volume::BoundingVolume;
use frustum_culling::volume::Sphere;

fn v(x: i64, y: i64, z: i64) -> Vec3I {
    Vec3I { x, y, z }
}

#[test]
fn extracted_planes_of_standard_camera() {
    // Near 100, far 100_000, 90 degree symmetric field of view.
    let corners = symmetric_perspective_corners(&v(0, 0, 0), 100, 100_000, 100, 100, 100_000,
        100_000);
    let f = extract_planes(&corners);
    // Near and far normals point straight back and straight ahead.
    assert_eq!(f.near.normal, v(0, 0, -40_000));
    assert_eq!(f.near.point, v(100, -100, 100));
    assert_eq!(f.far.normal, v(0, 0, 40_000_000_000));
    assert_eq!(f.far.point, v(-100_000, 100_000, 100_000));
    // The lateral normals flare outward at 45 degrees.
    assert_eq!(f.left.normal, v(19_980_000, 0, -19_980_000));
    assert_eq!(f.right.normal, v(-19_980_000_000, 0, -19_980_000_000));
    assert_eq!(f.bottom.normal, v(0, -19_980_000, -19_980_000));
    assert_eq!(f.top.normal, v(0, 19_980_000_000, -19_980_000_000));
}

#[test]
fn lateral_normals_are_mirror_images() {
    let near_hh: i128 = 100;
    let far_hh: i128 = 100_000;
    let corners = symmetric_perspective_corners(&v(0, 0, 0), 100, 100_000, 100, 100, 100_000,
        100_000);
    let f = extract_planes(&corners);
    // Scaled by the opposite face height, left and right normals mirror in
    // x and agree in y and z; likewise bottom and top in y.
    assert_eq!(far_hh * f.left.normal.x as i128, near_hh * -(f.right.normal.x as i128));
    assert_eq!(far_hh * f.left.normal.y as i128, near_hh * f.right.normal.y as i128);
    assert_eq!(far_hh * f.left.normal.z as i128, near_hh * f.right.normal.z as i128);
    assert_eq!(far_hh * f.bottom.normal.y as i128, near_hh * -(f.top.normal.y as i128));
    assert_eq!(far_hh * f.bottom.normal.x as i128, near_hh * f.top.normal.x as i128);
    assert_eq!(far_hh * f.bottom.normal.z as i128, near_hh * f.top.normal.z as i128);
}

#[test]
fn orthographic_lateral_normals_mirror_exactly() {
    // Equal near and far extents give an axis-aligned box volume whose
    // lateral normals are exact mirror images.
    let corners = symmetric_perspective_corners(&v(0, 0, 0), 100, 100_000, 5_000, 5_000, 5_000,
        5_000);
    let f = extract_planes(&corners);
    assert_eq!(f.left.normal.x, -f.right.normal.x);
    assert_eq!(f.left.normal.y, f.right.normal.y);
    assert_eq!(f.left.normal.z, f.right.normal.z);
    assert_eq!(f.bottom.normal.y, -f.top.normal.y);
    assert_eq!(f.bottom.normal.x, f.top.normal.x);
    assert_eq!(f.bottom.normal.z, f.top.normal.z);
}

#[test]
fn points_inside_are_outside_no_plane() {
    // Sample points strictly inside the volume and check each against all
    // six planes through the point test (a sphere of radius zero).
    let corners = symmetric_perspective_corners(&v(0, 0, 0), 100, 100_000, 100, 100, 100_000,
        100_000);
    let f = extract_planes(&corners);
    let probe = Sphere { radius: 0 };
    let samples = [
        v(0, 0, 101),
        v(0, 0, 99_999),
        v(40_000, -40_000, 50_000),
        v(-90, 90, 150),
    ];
    for p in samples.iter() {
        for plane in [&f.left, &f.right, &f.bottom, &f.top, &f.near, &f.far].iter() {
            assert!(!probe.outside_plane(p, &plane.point, &plane.normal));
        }
    }
}

#[test]
fn sphere_on_plane_boundary() {
    // At the far plane the signed distance equals radius times the normal
    // length only strictly beyond the plane: a sphere touching it from
    // inside stays visible.
    let corners = symmetric_perspective_corners(&v(0, 0, 0), 100, 100_000, 100, 100, 100_000,
        100_000);
    let f = extract_planes(&corners);
    let s = Sphere { radius: 1000 };
    assert!(!s.outside_plane(&v(0, 0, 100_500), &f.far.point, &f.far.normal));
    assert!(!s.outside_plane(&v(0, 0, 101_000), &f.far.point, &f.far.normal));
    assert!(s.outside_plane(&v(0, 0, 101_001), &f.far.point, &f.far.normal));
}
