//! Small exact-arithmetic linear algebra over `i64` scalars.
//!
//! Scalars are plain integers; the library never divides or rounds, so every
//! contract here states the result exactly. The `COORD_LIMIT` bound keeps all
//! products and sums well inside the `i64` range.

use vstd::prelude::*;

verus! {

/// Bound on a single coordinate, rotation entry or scale factor accepted by
/// the exec-mode matrix routines (2^20). Three summed triple products of
/// bounded values then stay below 2^62.
pub const COORD_LIMIT: i64 = 1048576;

/// A coordinate small enough to take part in matrix arithmetic.
pub open spec fn in_coord_range(x: int) -> bool {
    -(COORD_LIMIT as int) <= x <= COORD_LIMIT as int
}

/// A two-component vector (screen positions).
#[derive(Clone, Copy, Debug, PartialEq, Eq, Structural)]
pub struct Vec2 {
    pub x: i64,
    pub y: i64,
}

/// A three-component vector (positions, directions, scales).
#[derive(Clone, Copy, Debug, PartialEq, Eq, Structural)]
pub struct Vec3 {
    pub x: i64,
    pub y: i64,
    pub z: i64,
}

/// A four-component vector (colors, homogeneous coordinates).
#[derive(Clone, Copy, Debug, PartialEq, Eq, Structural)]
pub struct Vec4 {
    pub x: i64,
    pub y: i64,
    pub z: i64,
    pub w: i64,
}

impl Vec2 {
    pub fn new(x: i64, y: i64) -> (r: Vec2)
        ensures
            r == (Vec2 { x, y }),
    {
        Vec2 { x, y }
    }
}

impl Vec3 {
    pub open spec fn wf(self) -> bool {
        in_coord_range(self.x as int) && in_coord_range(self.y as int) && in_coord_range(
            self.z as int,
        )
    }

    pub fn new(x: i64, y: i64, z: i64) -> (r: Vec3)
        ensures
            r == (Vec3 { x, y, z }),
    {
        Vec3 { x, y, z }
    }
}

impl Vec4 {
    pub fn new(x: i64, y: i64, z: i64, w: i64) -> (r: Vec4)
        ensures
            r == (Vec4 { x, y, z, w }),
    {
        Vec4 { x, y, z, w }
    }
}

/// A 3x3 matrix; `mRC` is the entry in row `R`, column `C`.
#[derive(Clone, Copy, Debug, PartialEq, Eq, Structural)]
pub struct Mat3 {
    pub m00: i64,
    pub m01: i64,
    pub m02: i64,
    pub m10: i64,
    pub m11: i64,
    pub m12: i64,
    pub m20: i64,
    pub m21: i64,
    pub m22: i64,
}

/// A 4x4 matrix; `mRC` is the entry in row `R`, column `C`. Row-major
/// mathematical convention: the translation sits in column 3.
#[derive(Clone, Copy, Debug, PartialEq, Eq, Structural)]
pub struct Mat4 {
    pub m00: i64,
    pub m01: i64,
    pub m02: i64,
    pub m03: i64,
    pub m10: i64,
    pub m11: i64,
    pub m12: i64,
    pub m13: i64,
    pub m20: i64,
    pub m21: i64,
    pub m22: i64,
    pub m23: i64,
    pub m30: i64,
    pub m31: i64,
    pub m32: i64,
    pub m33: i64,
}

impl Mat3 {
    /// Every entry is small enough for matrix arithmetic.
    pub open spec fn wf(self) -> bool {
        &&& in_coord_range(self.m00 as int)
        &&& in_coord_range(self.m01 as int)
        &&& in_coord_range(self.m02 as int)
        &&& in_coord_range(self.m10 as int)
        &&& in_coord_range(self.m11 as int)
        &&& in_coord_range(self.m12 as int)
        &&& in_coord_range(self.m20 as int)
        &&& in_coord_range(self.m21 as int)
        &&& in_coord_range(self.m22 as int)
    }

    pub open spec fn spec_identity() -> Mat3 {
        Mat3 { m00: 1, m01: 0, m02: 0, m10: 0, m11: 1, m12: 0, m20: 0, m21: 0, m22: 1 }
    }

    pub fn identity() -> (r: Mat3)
        ensures
            r == Mat3::spec_identity(),
    {
        Mat3 { m00: 1, m01: 0, m02: 0, m10: 0, m11: 1, m12: 0, m20: 0, m21: 0, m22: 1 }
    }
}

/// Entry bound of a product of two matrices whose factors obey `COORD_LIMIT`:
/// three summed products of bounded entries.
pub open spec fn in_product_range(x: int) -> bool {
    -(COORD_LIMIT as int) * (COORD_LIMIT as int) <= x <= (COORD_LIMIT as int) * (
    COORD_LIMIT as int)
}

/// `|a| <= bound_a` and `|b| <= bound_b` bound the product by the product of
/// the bounds.
pub proof fn lemma_mul_bound(a: int, b: int, bound_a: int, bound_b: int)
    by (nonlinear_arith)
    requires
        -bound_a <= a <= bound_a,
        -bound_b <= b <= bound_b,
        0 <= bound_a,
        0 <= bound_b,
    ensures
        -(bound_a * bound_b) <= a * b <= bound_a * bound_b,
{
}

impl Mat4 {
    /// Every entry fits the product range, as the entries of a composed
    /// transform matrix do.
    pub open spec fn wf(self) -> bool {
        &&& in_product_range(self.m00 as int)
        &&& in_product_range(self.m01 as int)
        &&& in_product_range(self.m02 as int)
        &&& in_product_range(self.m03 as int)
        &&& in_product_range(self.m10 as int)
        &&& in_product_range(self.m11 as int)
        &&& in_product_range(self.m12 as int)
        &&& in_product_range(self.m13 as int)
        &&& in_product_range(self.m20 as int)
        &&& in_product_range(self.m21 as int)
        &&& in_product_range(self.m22 as int)
        &&& in_product_range(self.m23 as int)
        &&& in_product_range(self.m30 as int)
        &&& in_product_range(self.m31 as int)
        &&& in_product_range(self.m32 as int)
        &&& in_product_range(self.m33 as int)
    }

    /// Row 0 of `m * [p, 1]`.
    pub open spec fn spec_apply_x(self, p: Vec3) -> int {
        self.m00 * p.x + self.m01 * p.y + self.m02 * p.z + self.m03
    }

    /// Row 1 of `m * [p, 1]`.
    pub open spec fn spec_apply_y(self, p: Vec3) -> int {
        self.m10 * p.x + self.m11 * p.y + self.m12 * p.z + self.m13
    }

    /// Row 2 of `m * [p, 1]`.
    pub open spec fn spec_apply_z(self, p: Vec3) -> int {
        self.m20 * p.x + self.m21 * p.y + self.m22 * p.z + self.m23
    }

    /// Applies the matrix to the point `[p, 1]` and returns the first three
    /// components of the product, computed exactly.
    pub fn apply_point(&self, p: Vec3) -> (r: Vec3)
        requires
            self.wf(),
            p.wf(),
        ensures
            r.x as int == self.spec_apply_x(p),
            r.y as int == self.spec_apply_y(p),
            r.z as int == self.spec_apply_z(p),
    {
        proof {
            let lim = COORD_LIMIT as int;
            lemma_mul_bound(self.m00 as int, p.x as int, lim * lim, lim);
            lemma_mul_bound(self.m01 as int, p.y as int, lim * lim, lim);
            lemma_mul_bound(self.m02 as int, p.z as int, lim * lim, lim);
            lemma_mul_bound(self.m10 as int, p.x as int, lim * lim, lim);
            lemma_mul_bound(self.m11 as int, p.y as int, lim * lim, lim);
            lemma_mul_bound(self.m12 as int, p.z as int, lim * lim, lim);
            lemma_mul_bound(self.m20 as int, p.x as int, lim * lim, lim);
            lemma_mul_bound(self.m21 as int, p.y as int, lim * lim, lim);
            lemma_mul_bound(self.m22 as int, p.z as int, lim * lim, lim);
        }
        let x = self.m00 * p.x + self.m01 * p.y + self.m02 * p.z + self.m03;
        let y = self.m10 * p.x + self.m11 * p.y + self.m12 * p.z + self.m13;
        let z = self.m20 * p.x + self.m21 * p.y + self.m22 * p.z + self.m23;
        Vec3 { x, y, z }
    }
}

} // verus!
