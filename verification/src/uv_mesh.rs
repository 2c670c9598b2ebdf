//! Textured meshes: vertices with texture coordinates, a diffuse texture, and
//! per-instance transforms with the explicit instance-buffer flush.

use crate::math::{Vec2, Vec3, Vec4};
use crate::meshes::clone_vec_copy;
use crate::texture::Texture;
use crate::transform::Transform;
use vstd::prelude::*;

verus! {

/// One vertex of a textured mesh: position and normal in homogeneous
/// coordinates, and texture coordinates.
#[derive(Clone, Copy, Debug, PartialEq, Eq, Structural)]
pub struct UvVertex {
    pub pos: Vec4,
    pub normal: Vec4,
    pub uv: Vec2,
}

impl UvVertex {
    /// Builds a vertex; the position gets homogeneous coordinate 1, the
    /// normal 0.
    pub fn new(position: Vec3, normal: Vec3, uv: Vec2) -> (r: UvVertex)
        ensures
            r.pos == (Vec4 { x: position.x, y: position.y, z: position.z, w: 1 }),
            r.normal == (Vec4 { x: normal.x, y: normal.y, z: normal.z, w: 0 }),
            r.uv == uv,
    {
        UvVertex {
            pos: Vec4 { x: position.x, y: position.y, z: position.z, w: 1 },
            normal: Vec4 { x: normal.x, y: normal.y, z: normal.z, w: 0 },
            uv,
        }
    }

    pub fn get_position(&self) -> (r: Vec3)
        ensures
            r == (Vec3 { x: self.pos.x, y: self.pos.y, z: self.pos.z }),
    {
        Vec3 { x: self.pos.x, y: self.pos.y, z: self.pos.z }
    }

    pub fn get_normal(&self) -> (r: Vec3)
        ensures
            r == (Vec3 { x: self.normal.x, y: self.normal.y, z: self.normal.z }),
    {
        Vec3 { x: self.normal.x, y: self.normal.y, z: self.normal.z }
    }

    pub fn get_uv(&self) -> (r: Vec2)
        ensures
            r == self.uv,
    {
        self.uv
    }

    /// Replaces the position, keeping its homogeneous coordinate.
    pub fn set_position(&mut self, p: Vec3)
        ensures
            *final(self) == (UvVertex {
                pos: Vec4 { x: p.x, y: p.y, z: p.z, w: old(self).pos.w },
                ..*old(self)
            }),
    {
        self.pos = Vec4 { x: p.x, y: p.y, z: p.z, w: self.pos.w };
    }

    /// Replaces the normal, keeping its homogeneous coordinate.
    pub fn set_normal(&mut self, n: Vec3)
        ensures
            *final(self) == (UvVertex {
                normal: Vec4 { x: n.x, y: n.y, z: n.z, w: old(self).normal.w },
                ..*old(self)
            }),
    {
        self.normal = Vec4 { x: n.x, y: n.y, z: n.z, w: self.normal.w };
    }

    pub fn set_uv(&mut self, uv: Vec2)
        ensures
            *final(self) == (UvVertex { uv, ..*old(self) }),
    {
        self.uv = uv;
    }
}

/// A textured mesh. `instances` is the caller-editable list; `buffered`
/// mirrors what was last flushed to the GPU instance buffer, and changes only
/// on [`UvModel::update`].
#[derive(Clone, Debug)]
pub struct UvModel {
    pub vertices: Vec<UvVertex>,
    pub indices: Option<Vec<u16>>,
    pub diffuse_texture: Texture,
    pub instances: Vec<Transform>,
    pub buffered: Vec<Transform>,
}

impl UvModel {
    /// Builds a textured mesh around the given geometry and already-decoded
    /// texture, with no instances and an empty instance buffer.
    pub fn new(vertices: Vec<UvVertex>, indices: Option<Vec<u16>>, diffuse_texture: Texture) -> (r:
        UvModel)
        ensures
            r.vertices == vertices,
            r.indices == indices,
            r.diffuse_texture == diffuse_texture,
            r.instances@ == Seq::<Transform>::empty(),
            r.buffered@ == Seq::<Transform>::empty(),
    {
        UvModel { vertices, indices, diffuse_texture, instances: Vec::new(), buffered: Vec::new() }
    }

    /// Flushes the instance list: after the call the GPU-visible buffer holds
    /// exactly the current instances.
    pub fn update(&mut self)
        ensures
            final(self).buffered@ == old(self).instances@,
            final(self).instances == old(self).instances,
            final(self).vertices == old(self).vertices,
            final(self).indices == old(self).indices,
            final(self).diffuse_texture == old(self).diffuse_texture,
    {
        self.buffered = clone_vec_copy(&self.instances);
    }

    /// Whether the flushed instance buffer is empty; the renderer skips the
    /// mesh's draw calls exactly then.
    pub fn is_empty(&self) -> (r: bool)
        ensures
            r == (self.buffered@.len() == 0),
    {
        self.buffered.len() == 0
    }

    /// How many instances the GPU-visible buffer holds.
    pub fn instances_in_buffer(&self) -> (r: usize)
        ensures
            r == self.buffered@.len(),
    {
        self.buffered.len()
    }

    pub fn vertex_count(&self) -> (r: usize)
        ensures
            r == self.vertices@.len(),
    {
        self.vertices.len()
    }

    pub fn index_count(&self) -> (r: usize)
        ensures
            r == match self.indices {
                Some(ix) => ix@.len(),
                None => 0,
            },
    {
        match &self.indices {
            Some(ix) => ix.len(),
            None => 0,
        }
    }
}

} // verus!
