//! Meshes with per-vertex colors: vertex data, per-instance transform and
//! lighting parameters, and the explicit instance-buffer flush.

use crate::math::{Mat4, Vec3, Vec4};
use crate::meshes::clone_vec_copy;
use crate::transform::{is_transform_matrix, InstanceRaw, Transform};
use vstd::prelude::*;

verus! {

/// One vertex of a color mesh: position and normal in homogeneous
/// coordinates, and a color.
#[derive(Clone, Copy, Debug, PartialEq, Eq, Structural)]
pub struct ColorVertex {
    pub pos: Vec4,
    pub normal: Vec4,
    pub color: Vec4,
}

impl ColorVertex {
    /// Builds a vertex; the position gets homogeneous coordinate 1, the
    /// normal 0.
    pub fn new(position: Vec3, normal: Vec3, color: Vec4) -> (r: ColorVertex)
        ensures
            r.pos == (Vec4 { x: position.x, y: position.y, z: position.z, w: 1 }),
            r.normal == (Vec4 { x: normal.x, y: normal.y, z: normal.z, w: 0 }),
            r.color == color,
    {
        ColorVertex {
            pos: Vec4 { x: position.x, y: position.y, z: position.z, w: 1 },
            normal: Vec4 { x: normal.x, y: normal.y, z: normal.z, w: 0 },
            color,
        }
    }

    pub fn get_position(&self) -> (r: Vec3)
        ensures
            r == (Vec3 { x: self.pos.x, y: self.pos.y, z: self.pos.z }),
    {
        Vec3 { x: self.pos.x, y: self.pos.y, z: self.pos.z }
    }

    pub fn get_normal(&self) -> (r: Vec3)
        ensures
            r == (Vec3 { x: self.normal.x, y: self.normal.y, z: self.normal.z }),
    {
        Vec3 { x: self.normal.x, y: self.normal.y, z: self.normal.z }
    }

    pub fn get_color(&self) -> (r: Vec4)
        ensures
            r == self.color,
    {
        self.color
    }

    /// Replaces the position, keeping its homogeneous coordinate.
    pub fn set_position(&mut self, p: Vec3)
        ensures
            *final(self) == (ColorVertex {
                pos: Vec4 { x: p.x, y: p.y, z: p.z, w: old(self).pos.w },
                ..*old(self)
            }),
    {
        self.pos = Vec4 { x: p.x, y: p.y, z: p.z, w: self.pos.w };
    }

    /// Replaces the normal, keeping its homogeneous coordinate.
    pub fn set_normal(&mut self, n: Vec3)
        ensures
            *final(self) == (ColorVertex {
                normal: Vec4 { x: n.x, y: n.y, z: n.z, w: old(self).normal.w },
                ..*old(self)
            }),
    {
        self.normal = Vec4 { x: n.x, y: n.y, z: n.z, w: self.normal.w };
    }

    pub fn set_color(&mut self, c: Vec4)
        ensures
            *final(self) == (ColorVertex { color: c, ..*old(self) }),
    {
        self.color = c;
    }
}

/// Per-instance lighting material parameters.
#[derive(Clone, Copy, Debug, PartialEq, Eq, Structural)]
pub struct Lighting {
    pub specular_strength: i64,
    pub specular_spread: i64,
    pub diffuse_strength: i64,
}

/// One drawn instance of a color mesh.
#[derive(Clone, Copy, Debug, PartialEq, Eq, Structural)]
pub struct ColorMeshInstance {
    pub transform: Transform,
    pub lighting: Lighting,
}

/// The flattened per-instance record for the color-mesh instance buffer.
#[derive(Clone, Copy, Debug, PartialEq, Eq, Structural)]
pub struct ColorInstanceRaw {
    pub mat: Mat4,
    pub specular_strength: i64,
    pub specular_spread: i64,
    pub diffuse_strength: i64,
}

impl ColorInstanceRaw {
    /// Flattens an instance: composed transform matrix plus the lighting
    /// parameters.
    pub fn from_instance(instance: &ColorMeshInstance) -> (r: ColorInstanceRaw)
        requires
            instance.transform.wf(),
        ensures
            is_transform_matrix(r.mat, instance.transform),
            r.specular_strength == instance.lighting.specular_strength,
            r.specular_spread == instance.lighting.specular_spread,
            r.diffuse_strength == instance.lighting.diffuse_strength,
    {
        let raw = InstanceRaw::from_transform(&instance.transform);
        ColorInstanceRaw {
            mat: raw.mat,
            specular_strength: instance.lighting.specular_strength,
            specular_spread: instance.lighting.specular_spread,
            diffuse_strength: instance.lighting.diffuse_strength,
        }
    }
}

/// A mesh with colored vertices. `instances` is the caller-editable list;
/// `buffered` mirrors what was last flushed to the GPU instance buffer, and
/// changes only on [`ColorMesh::update`].
#[derive(Clone, Debug)]
pub struct ColorMesh {
    pub color: Vec3,
    pub vertices: Vec<ColorVertex>,
    pub indices: Option<Vec<u16>>,
    pub instances: Vec<ColorMeshInstance>,
    pub buffered: Vec<ColorMeshInstance>,
}

impl ColorMesh {
    /// Builds a mesh around the given geometry, with no instances and an
    /// empty instance buffer.
    pub fn from_vertices_and_indices(vertices: Vec<ColorVertex>, indices: Option<Vec<u16>>) -> (r:
        ColorMesh)
        ensures
            r.vertices == vertices,
            r.indices == indices,
            r.color == (Vec3 { x: 1, y: 0, z: 1 }),
            r.instances@ == Seq::<ColorMeshInstance>::empty(),
            r.buffered@ == Seq::<ColorMeshInstance>::empty(),
    {
        ColorMesh {
            color: Vec3 { x: 1, y: 0, z: 1 },
            vertices,
            indices,
            instances: Vec::new(),
            buffered: Vec::new(),
        }
    }

    /// Flushes the instance list: after the call the GPU-visible buffer holds
    /// exactly the current instances.
    pub fn update(&mut self)
        ensures
            final(self).buffered@ == old(self).instances@,
            final(self).instances == old(self).instances,
            final(self).vertices == old(self).vertices,
            final(self).indices == old(self).indices,
            final(self).color == old(self).color,
    {
        self.buffered = clone_vec_copy(&self.instances);
    }

    /// Whether the flushed instance buffer is empty; the renderer skips the
    /// mesh's draw calls exactly then.
    pub fn is_empty(&self) -> (r: bool)
        ensures
            r == (self.buffered@.len() == 0),
    {
        self.buffered.len() == 0
    }

    /// How many instances the GPU-visible buffer holds.
    pub fn instances_in_buffer(&self) -> (r: usize)
        ensures
            r == self.buffered@.len(),
    {
        self.buffered.len()
    }

    pub fn vertex_count(&self) -> (r: usize)
        ensures
            r == self.vertices@.len(),
    {
        self.vertices.len()
    }

    pub fn index_count(&self) -> (r: usize)
        ensures
            r == match self.indices {
                Some(ix) => ix@.len(),
                None => 0,
            },
    {
        match &self.indices {
            Some(ix) => ix.len(),
            None => 0,
        }
    }
}

} // verus!
