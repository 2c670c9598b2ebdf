//! Loaded models: one or more sub-meshes with full vertex attributes, each
//! pointing at a material, sharing one list of per-instance transforms with
//! the explicit instance-buffer flush. Parsing model files into this shape is
//! the embedding application's work.

use crate::math::{Vec2, Vec3};
use crate::meshes::clone_vec_copy;
use crate::texture::Texture;
use crate::transform::Transform;
use vstd::prelude::*;

verus! {

/// One vertex of a model mesh.
#[derive(Clone, Copy, Debug, PartialEq, Eq, Structural)]
pub struct ModelVertex {
    pub pos: Vec3,
    pub uv: Vec2,
    pub normal: Vec3,
    pub tangent: Vec3,
    pub bitangent: Vec3,
}

impl ModelVertex {
    pub fn new(pos: Vec3, normal: Vec3, uv: Vec2, tangent: Vec3, bitangent: Vec3) -> (r:
        ModelVertex)
        ensures
            r == (ModelVertex { pos, uv, normal, tangent, bitangent }),
    {
        ModelVertex { pos, uv, normal, tangent, bitangent }
    }
}

/// A material: the diffuse and normal textures of a sub-mesh.
#[derive(Clone, Debug)]
pub struct Material {
    pub diffuse: Texture,
    pub normal: Texture,
}

impl Material {
    pub fn from_textures(diffuse: Texture, normal: Texture) -> (r: Material)
        ensures
            r.diffuse == diffuse,
            r.normal == normal,
    {
        Material { diffuse, normal }
    }
}

/// One sub-mesh of a model: indexed geometry and the index of its material in
/// the model's material list.
#[derive(Clone, Debug)]
pub struct ModelMesh {
    pub vertices: Vec<ModelVertex>,
    pub indices: Vec<u32>,
    pub material: usize,
}

impl ModelMesh {
    pub fn new(vertices: Vec<ModelVertex>, indices: Vec<u32>, material: usize) -> (r: ModelMesh)
        ensures
            r.vertices == vertices,
            r.indices == indices,
            r.material == material,
    {
        ModelMesh { vertices, indices, material }
    }
}

/// A loaded model. `instances` is the caller-editable list; `buffered`
/// mirrors what was last flushed to the GPU instance buffer, and changes only
/// on [`Model::update`].
#[derive(Clone, Debug)]
pub struct Model {
    pub meshes: Vec<ModelMesh>,
    pub materials: Vec<Material>,
    pub instances: Vec<Transform>,
    pub buffered: Vec<Transform>,
}

impl Model {
    /// Whether every sub-mesh points at an existing material.
    pub open spec fn wf(self) -> bool {
        forall|i: int|
            0 <= i < self.meshes@.len() ==> (#[trigger] self.meshes@[i]).material
                < self.materials@.len()
    }

    /// Builds a model around already-parsed sub-meshes and materials, with no
    /// instances and an empty instance buffer.
    pub fn from_mesh_and_materials(meshes: Vec<ModelMesh>, materials: Vec<Material>) -> (r: Model)
        ensures
            r.meshes == meshes,
            r.materials == materials,
            r.instances@ == Seq::<Transform>::empty(),
            r.buffered@ == Seq::<Transform>::empty(),
    {
        Model { meshes, materials, instances: Vec::new(), buffered: Vec::new() }
    }

    /// Flushes the instance list: after the call the GPU-visible buffer holds
    /// exactly the current instances.
    pub fn update(&mut self)
        ensures
            final(self).buffered@ == old(self).instances@,
            final(self).instances == old(self).instances,
            final(self).meshes == old(self).meshes,
            final(self).materials == old(self).materials,
    {
        self.buffered = clone_vec_copy(&self.instances);
    }

    /// Whether the flushed instance buffer is empty; the renderer skips the
    /// model's draw calls exactly then.
    pub fn is_empty(&self) -> (r: bool)
        ensures
            r == (self.buffered@.len() == 0),
    {
        self.buffered.len() == 0
    }

    /// How many instances the GPU-visible buffer holds.
    pub fn instances_in_buffer(&self) -> (r: usize)
        ensures
            r == self.buffered@.len(),
    {
        self.buffered.len()
    }
}

} // verus!
