//! Per-instance transform: position, rotation and non-uniform scale, composed
//! into one matrix as `Translation * Rotation * Scale`.

use crate::math::{in_coord_range, lemma_mul_bound, Mat3, Mat4, Vec3, COORD_LIMIT};
use vstd::prelude::*;

verus! {

/// Position, rotation and non-uniform scale of one drawn instance.
#[derive(Clone, Copy, Debug, PartialEq, Eq, Structural)]
pub struct Transform {
    pub position: Vec3,
    pub rotation: Mat3,
    pub scale: Vec3,
}

/// The flattened per-instance record handed to the instance buffer: just the
/// composed transform matrix.
#[derive(Clone, Copy, Debug, PartialEq, Eq, Structural)]
pub struct InstanceRaw {
    pub mat: Mat4,
}

impl Default for Transform {
    /// The identity transform.
    fn default() -> (r: Transform)
        ensures
            r == Transform::spec_identity(),
            r.wf(),
    {
        Transform::new()
    }
}

/// `m` is exactly `Translation(t.position) * Rotation(t.rotation) *
/// Scale(t.scale)`: the upper-left block scales column `j` of the rotation by
/// `scale[j]`, column 3 holds the position, and the last row is `(0,0,0,1)`.
pub open spec fn is_transform_matrix(m: Mat4, t: Transform) -> bool {
    &&& m.m00 == t.rotation.m00 * t.scale.x
    &&& m.m01 == t.rotation.m01 * t.scale.y
    &&& m.m02 == t.rotation.m02 * t.scale.z
    &&& m.m03 == t.position.x
    &&& m.m10 == t.rotation.m10 * t.scale.x
    &&& m.m11 == t.rotation.m11 * t.scale.y
    &&& m.m12 == t.rotation.m12 * t.scale.z
    &&& m.m13 == t.position.y
    &&& m.m20 == t.rotation.m20 * t.scale.x
    &&& m.m21 == t.rotation.m21 * t.scale.y
    &&& m.m22 == t.rotation.m22 * t.scale.z
    &&& m.m23 == t.position.z
    &&& m.m30 == 0
    &&& m.m31 == 0
    &&& m.m32 == 0
    &&& m.m33 == 1
}

impl Transform {
    /// All components are small enough for exact matrix arithmetic.
    pub open spec fn wf(self) -> bool {
        self.position.wf() && self.rotation.wf() && self.scale.wf()
    }

    pub open spec fn spec_identity() -> Transform {
        Transform {
            position: Vec3 { x: 0, y: 0, z: 0 },
            rotation: Mat3::spec_identity(),
            scale: Vec3 { x: 1, y: 1, z: 1 },
        }
    }

    /// The identity transform: zero position, identity rotation, unit scale.
    pub fn new() -> (r: Transform)
        ensures
            r == Transform::spec_identity(),
            r.wf(),
    {
        Transform {
            position: Vec3 { x: 0, y: 0, z: 0 },
            rotation: Mat3::identity(),
            scale: Vec3 { x: 1, y: 1, z: 1 },
        }
    }

    /// Combines two transforms componentwise: positions add, rotations
    /// multiply as matrices, scales multiply componentwise.
    pub fn mul(self, other: Transform) -> (r: Transform)
        requires
            self.wf(),
            other.wf(),
        ensures
            r.position.x == self.position.x + other.position.x,
            r.position.y == self.position.y + other.position.y,
            r.position.z == self.position.z + other.position.z,
            r.rotation.m00 == self.rotation.m00 * other.rotation.m00 + self.rotation.m01
                * other.rotation.m10 + self.rotation.m02 * other.rotation.m20,
            r.rotation.m01 == self.rotation.m00 * other.rotation.m01 + self.rotation.m01
                * other.rotation.m11 + self.rotation.m02 * other.rotation.m21,
            r.rotation.m02 == self.rotation.m00 * other.rotation.m02 + self.rotation.m01
                * other.rotation.m12 + self.rotation.m02 * other.rotation.m22,
            r.rotation.m10 == self.rotation.m10 * other.rotation.m00 + self.rotation.m11
                * other.rotation.m10 + self.rotation.m12 * other.rotation.m20,
            r.rotation.m11 == self.rotation.m10 * other.rotation.m01 + self.rotation.m11
                * other.rotation.m11 + self.rotation.m12 * other.rotation.m21,
            r.rotation.m12 == self.rotation.m10 * other.rotation.m02 + self.rotation.m11
                * other.rotation.m12 + self.rotation.m12 * other.rotation.m22,
            r.rotation.m20 == self.rotation.m20 * other.rotation.m00 + self.rotation.m21
                * other.rotation.m10 + self.rotation.m22 * other.rotation.m20,
            r.rotation.m21 == self.rotation.m20 * other.rotation.m01 + self.rotation.m21
                * other.rotation.m11 + self.rotation.m22 * other.rotation.m21,
            r.rotation.m22 == self.rotation.m20 * other.rotation.m02 + self.rotation.m21
                * other.rotation.m12 + self.rotation.m22 * other.rotation.m22,
            r.scale.x == self.scale.x * other.scale.x,
            r.scale.y == self.scale.y * other.scale.y,
            r.scale.z == self.scale.z * other.scale.z,
    {
        proof {
            let lim = COORD_LIMIT as int;
            lemma_mul_bound(self.rotation.m00 as int, other.rotation.m00 as int, lim, lim);
            lemma_mul_bound(self.rotation.m01 as int, other.rotation.m10 as int, lim, lim);
            lemma_mul_bound(self.rotation.m02 as int, other.rotation.m20 as int, lim, lim);
            lemma_mul_bound(self.rotation.m00 as int, other.rotation.m01 as int, lim, lim);
            lemma_mul_bound(self.rotation.m01 as int, other.rotation.m11 as int, lim, lim);
            lemma_mul_bound(self.rotation.m02 as int, other.rotation.m21 as int, lim, lim);
            lemma_mul_bound(self.rotation.m00 as int, other.rotation.m02 as int, lim, lim);
            lemma_mul_bound(self.rotation.m01 as int, other.rotation.m12 as int, lim, lim);
            lemma_mul_bound(self.rotation.m02 as int, other.rotation.m22 as int, lim, lim);
            lemma_mul_bound(self.rotation.m10 as int, other.rotation.m00 as int, lim, lim);
            lemma_mul_bound(self.rotation.m11 as int, other.rotation.m10 as int, lim, lim);
            lemma_mul_bound(self.rotation.m12 as int, other.rotation.m20 as int, lim, lim);
            lemma_mul_bound(self.rotation.m10 as int, other.rotation.m01 as int, lim, lim);
            lemma_mul_bound(self.rotation.m11 as int, other.rotation.m11 as int, lim, lim);
            lemma_mul_bound(self.rotation.m12 as int, other.rotation.m21 as int, lim, lim);
            lemma_mul_bound(self.rotation.m10 as int, other.rotation.m02 as int, lim, lim);
            lemma_mul_bound(self.rotation.m11 as int, other.rotation.m12 as int, lim, lim);
            lemma_mul_bound(self.rotation.m12 as int, other.rotation.m22 as int, lim, lim);
            lemma_mul_bound(self.rotation.m20 as int, other.rotation.m00 as int, lim, lim);
            lemma_mul_bound(self.rotation.m21 as int, other.rotation.m10 as int, lim, lim);
            lemma_mul_bound(self.rotation.m22 as int, other.rotation.m20 as int, lim, lim);
            lemma_mul_bound(self.rotation.m20 as int, other.rotation.m01 as int, lim, lim);
            lemma_mul_bound(self.rotation.m21 as int, other.rotation.m11 as int, lim, lim);
            lemma_mul_bound(self.rotation.m22 as int, other.rotation.m21 as int, lim, lim);
            lemma_mul_bound(self.rotation.m20 as int, other.rotation.m02 as int, lim, lim);
            lemma_mul_bound(self.rotation.m21 as int, other.rotation.m12 as int, lim, lim);
            lemma_mul_bound(self.rotation.m22 as int, other.rotation.m22 as int, lim, lim);
            lemma_mul_bound(self.scale.x as int, other.scale.x as int, lim, lim);
            lemma_mul_bound(self.scale.y as int, other.scale.y as int, lim, lim);
            lemma_mul_bound(self.scale.z as int, other.scale.z as int, lim, lim);
        }
        Transform {
            position: Vec3 {
                x: self.position.x + other.position.x,
                y: self.position.y + other.position.y,
                z: self.position.z + other.position.z,
            },
            rotation: Mat3 {
                m00: self.rotation.m00 * other.rotation.m00 + self.rotation.m01
                    * other.rotation.m10 + self.rotation.m02 * other.rotation.m20,
                m01: self.rotation.m00 * other.rotation.m01 + self.rotation.m01
                    * other.rotation.m11 + self.rotation.m02 * other.rotation.m21,
                m02: self.rotation.m00 * other.rotation.m02 + self.rotation.m01
                    * other.rotation.m12 + self.rotation.m02 * other.rotation.m22,
                m10: self.rotation.m10 * other.rotation.m00 + self.rotation.m11
                    * other.rotation.m10 + self.rotation.m12 * other.rotation.m20,
                m11: self.rotation.m10 * other.rotation.m01 + self.rotation.m11
                    * other.rotation.m11 + self.rotation.m12 * other.rotation.m21,
                m12: self.rotation.m10 * other.rotation.m02 + self.rotation.m11
                    * other.rotation.m12 + self.rotation.m12 * other.rotation.m22,
                m20: self.rotation.m20 * other.rotation.m00 + self.rotation.m21
                    * other.rotation.m10 + self.rotation.m22 * other.rotation.m20,
                m21: self.rotation.m20 * other.rotation.m01 + self.rotation.m21
                    * other.rotation.m11 + self.rotation.m22 * other.rotation.m21,
                m22: self.rotation.m20 * other.rotation.m02 + self.rotation.m21
                    * other.rotation.m12 + self.rotation.m22 * other.rotation.m22,
            },
            scale: Vec3 {
                x: self.scale.x * other.scale.x,
                y: self.scale.y * other.scale.y,
                z: self.scale.z * other.scale.z,
            },
        }
    }

    /// Composes the transform into its matrix, `Translation * Rotation *
    /// Scale`.
    pub fn to_matrix(&self) -> (m: Mat4)
        requires
            self.wf(),
        ensures
            is_transform_matrix(m, *self),
            m.wf(),
    {
        proof {
            let lim = COORD_LIMIT as int;
            lemma_mul_bound(self.rotation.m00 as int, self.scale.x as int, lim, lim);
            lemma_mul_bound(self.rotation.m01 as int, self.scale.y as int, lim, lim);
            lemma_mul_bound(self.rotation.m02 as int, self.scale.z as int, lim, lim);
            lemma_mul_bound(self.rotation.m10 as int, self.scale.x as int, lim, lim);
            lemma_mul_bound(self.rotation.m11 as int, self.scale.y as int, lim, lim);
            lemma_mul_bound(self.rotation.m12 as int, self.scale.z as int, lim, lim);
            lemma_mul_bound(self.rotation.m20 as int, self.scale.x as int, lim, lim);
            lemma_mul_bound(self.rotation.m21 as int, self.scale.y as int, lim, lim);
            lemma_mul_bound(self.rotation.m22 as int, self.scale.z as int, lim, lim);
        }
        Mat4 {
            m00: self.rotation.m00 * self.scale.x,
            m01: self.rotation.m01 * self.scale.y,
            m02: self.rotation.m02 * self.scale.z,
            m03: self.position.x,
            m10: self.rotation.m10 * self.scale.x,
            m11: self.rotation.m11 * self.scale.y,
            m12: self.rotation.m12 * self.scale.z,
            m13: self.position.y,
            m20: self.rotation.m20 * self.scale.x,
            m21: self.rotation.m21 * self.scale.y,
            m22: self.rotation.m22 * self.scale.z,
            m23: self.position.z,
            m30: 0,
            m31: 0,
            m32: 0,
            m33: 1,
        }
    }
}

impl InstanceRaw {
    /// Flattens a transform for the instance buffer.
    pub fn from_transform(t: &Transform) -> (r: InstanceRaw)
        requires
            t.wf(),
        ensures
            is_transform_matrix(r.mat, *t),
            r.mat.wf(),
    {
        InstanceRaw { mat: t.to_matrix() }
    }
}

/// Law: applying a composed transform matrix to a point is translation after
/// rotation after scaling. For every transform `t`, matrix `m` composed from
/// it, and point `p`, row `i` of `m * [p, 1]` equals `t.position[i] +
/// row_i(t.rotation) . (t.scale componentwise* p)`, exactly.
pub proof fn lemma_transform_composition(m: Mat4, t: Transform, p: Vec3)
    requires
        is_transform_matrix(m, t),
    ensures
        m.spec_apply_x(p) == t.position.x + (t.rotation.m00 * (t.scale.x * p.x) + t.rotation.m01 * (
        t.scale.y * p.y) + t.rotation.m02 * (t.scale.z * p.z)),
        m.spec_apply_y(p) == t.position.y + (t.rotation.m10 * (t.scale.x * p.x) + t.rotation.m11 * (
        t.scale.y * p.y) + t.rotation.m12 * (t.scale.z * p.z)),
        m.spec_apply_z(p) == t.position.z + (t.rotation.m20 * (t.scale.x * p.x) + t.rotation.m21 * (
        t.scale.y * p.y) + t.rotation.m22 * (t.scale.z * p.z)),
{
    lemma_mul_reassociate(t.rotation.m00 as int, t.scale.x as int, p.x as int);
    lemma_mul_reassociate(t.rotation.m01 as int, t.scale.y as int, p.y as int);
    lemma_mul_reassociate(t.rotation.m02 as int, t.scale.z as int, p.z as int);
    lemma_mul_reassociate(t.rotation.m10 as int, t.scale.x as int, p.x as int);
    lemma_mul_reassociate(t.rotation.m11 as int, t.scale.y as int, p.y as int);
    lemma_mul_reassociate(t.rotation.m12 as int, t.scale.z as int, p.z as int);
    lemma_mul_reassociate(t.rotation.m20 as int, t.scale.x as int, p.x as int);
    lemma_mul_reassociate(t.rotation.m21 as int, t.scale.y as int, p.y as int);
    lemma_mul_reassociate(t.rotation.m22 as int, t.scale.z as int, p.z as int);
}

proof fn lemma_mul_reassociate(a: int, b: int, c: int)
    by (nonlinear_arith)
    ensures
        (a * b) * c == a * (b * c),
{
}

} // verus!
