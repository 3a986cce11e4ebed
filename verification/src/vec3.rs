//! Fixed-point three-dimensional vectors and the exact arithmetic the
//! culling tests are built from.

use vstd::prelude::*;

verus! {

/// Every world-space coordinate the engine accepts (points, half extents,
/// radii, box axes) lies within this bound on each axis.
pub const WORLD_MAX: i64 = 400_000;

/// Bound on each component of an extracted plane normal: a normal is the
/// cross product of two frustum edge vectors, each edge component is a
/// difference of two world coordinates, and a cross-product component is a
/// difference of two products of edge components, so it is at most
/// eight times the square of `WORLD_MAX`.
pub const NORMAL_MAX: i64 = 1_280_000_000_000;

/// Mathematical (unbounded) three-vector used in specifications.
pub struct V3 {
    pub x: int,
    pub y: int,
    pub z: int,
}

pub open spec fn vadd(a: V3, b: V3) -> V3 {
    V3 { x: a.x + b.x, y: a.y + b.y, z: a.z + b.z }
}

pub open spec fn vsub(a: V3, b: V3) -> V3 {
    V3 { x: a.x - b.x, y: a.y - b.y, z: a.z - b.z }
}

pub open spec fn vscale(k: int, a: V3) -> V3 {
    V3 { x: k * a.x, y: k * a.y, z: k * a.z }
}

pub open spec fn vdot(a: V3, b: V3) -> int {
    a.x * b.x + a.y * b.y + a.z * b.z
}

pub open spec fn vcross(a: V3, b: V3) -> V3 {
    V3 {
        x: a.y * b.z - a.z * b.y,
        y: a.z * b.x - a.x * b.z,
        z: a.x * b.y - a.y * b.x,
    }
}

pub open spec fn iabs(x: int) -> int {
    if x < 0 {
        -x
    } else {
        x
    }
}

/// Each component of `a` lies in `[-b, b]`.
pub open spec fn in_range(a: V3, b: int) -> bool {
    &&& -b <= a.x <= b
    &&& -b <= a.y <= b
    &&& -b <= a.z <= b
}

/// A world-space point or vector in fixed-point coordinates.
#[derive(Clone, Copy, PartialEq, Eq, Structural, Debug)]
pub struct Vec3I {
    pub x: i64,
    pub y: i64,
    pub z: i64,
}

impl View for Vec3I {
    type V = V3;

    open spec fn view(&self) -> V3 {
        V3 { x: self.x as int, y: self.y as int, z: self.z as int }
    }
}

pub proof fn lemma_mul_bounds(a: int, b: int, m: int, n: int)
    by (nonlinear_arith)
    requires
        -m <= a <= m,
        -n <= b <= n,
        0 <= m,
        0 <= n,
    ensures
        -(m * n) <= a * b <= m * n,
{
}

/// A dot product of vectors bounded by `m` and `n` is bounded by `3 * m * n`.
pub proof fn lemma_vdot_bound(a: V3, b: V3, m: int, n: int)
    requires
        in_range(a, m),
        in_range(b, n),
        0 <= m,
        0 <= n,
    ensures
        -(3 * (m * n)) <= vdot(a, b) <= 3 * (m * n),
{
    lemma_mul_bounds(a.x, b.x, m, n);
    lemma_mul_bounds(a.y, b.y, m, n);
    lemma_mul_bounds(a.z, b.z, m, n);
}

impl Vec3I {
    /// Exact difference of two points lying within the world bound.
    pub fn diff(&self, other: &Vec3I) -> (r: Vec3I)
        requires
            in_range(self@, WORLD_MAX as int),
            in_range(other@, WORLD_MAX as int),
        ensures
            r@ == vsub(self@, other@),
            in_range(r@, 2 * WORLD_MAX as int),
    {
        Vec3I { x: self.x - other.x, y: self.y - other.y, z: self.z - other.z }
    }

    /// Exact cross product of two frustum edge vectors.
    pub fn cross(&self, other: &Vec3I) -> (r: Vec3I)
        requires
            in_range(self@, 2 * WORLD_MAX as int),
            in_range(other@, 2 * WORLD_MAX as int),
        ensures
            r@ == vcross(self@, other@),
            in_range(r@, NORMAL_MAX as int),
    {
        proof {
            lemma_mul_bounds(self.y as int, other.z as int, 800_000, 800_000);
            lemma_mul_bounds(self.z as int, other.y as int, 800_000, 800_000);
            lemma_mul_bounds(self.z as int, other.x as int, 800_000, 800_000);
            lemma_mul_bounds(self.x as int, other.z as int, 800_000, 800_000);
            lemma_mul_bounds(self.x as int, other.y as int, 800_000, 800_000);
            lemma_mul_bounds(self.y as int, other.x as int, 800_000, 800_000);
        }
        Vec3I {
            x: self.y * other.z - self.z * other.y,
            y: self.z * other.x - self.x * other.z,
            z: self.x * other.y - self.y * other.x,
        }
    }

    /// Exact dot product of a plane normal with a vector no larger than a
    /// difference of two world points.
    pub fn dot_n(&self, other: &Vec3I) -> (r: i64)
        requires
            in_range(self@, NORMAL_MAX as int),
            in_range(other@, 2 * WORLD_MAX as int),
        ensures
            r as int == vdot(self@, other@),
    {
        proof {
            lemma_mul_bounds(self.x as int, other.x as int, 1_280_000_000_000, 800_000);
            lemma_mul_bounds(self.y as int, other.y as int, 1_280_000_000_000, 800_000);
            lemma_mul_bounds(self.z as int, other.z as int, 1_280_000_000_000, 800_000);
        }
        self.x * other.x + self.y * other.y + self.z * other.z
    }

    /// Exact squared length of a plane normal; too large for 64 bits.
    pub fn norm_sq(&self) -> (r: i128)
        requires
            in_range(self@, NORMAL_MAX as int),
        ensures
            r as int == vdot(self@, self@),
    {
        proof {
            lemma_mul_bounds(self.x as int, self.x as int, 1_280_000_000_000, 1_280_000_000_000);
            lemma_mul_bounds(self.y as int, self.y as int, 1_280_000_000_000, 1_280_000_000_000);
            lemma_mul_bounds(self.z as int, self.z as int, 1_280_000_000_000, 1_280_000_000_000);
        }
        (self.x as i128) * (self.x as i128) + (self.y as i128) * (self.y as i128) + (self.z
            as i128) * (self.z as i128)
    }
}

} // verus!
