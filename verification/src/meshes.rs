//! Handles into the sparse mesh stores, the first-fit slot allocator the
//! stores share, and the renderer's mesh API. A store is a vector of optional
//! entries: removing a mesh clears its slot to a tombstone, and loading a new
//! mesh fills the first free slot before the store grows. Handles are not
//! checked at use; dereferencing a cleared slot is a programming error, so
//! the accessors require a live slot.

use crate::color_mesh::{ColorMesh, ColorMeshInstance, ColorVertex};
use crate::lines::{Line, Lines};
use crate::model::{Material, Model, ModelMesh};
use crate::texture::Texture;
use crate::transform::Transform;
use crate::uv_mesh::{UvModel, UvVertex};
use crate::WgpuRenderer;
use vstd::prelude::*;

verus! {

/// Handle to a loaded color mesh: the index of its slot.
#[derive(Clone, Copy, Debug, PartialEq, Eq, Structural)]
pub struct ColorMeshHandle {
    pub index: usize,
}

impl ColorMeshHandle {
    pub fn new(index: usize) -> (r: ColorMeshHandle)
        ensures
            r.index == index,
    {
        ColorMeshHandle { index }
    }
}

/// Handle to a loaded textured mesh: the index of its slot.
#[derive(Clone, Copy, Debug, PartialEq, Eq, Structural)]
pub struct UvMeshHandle {
    pub index: usize,
}

impl UvMeshHandle {
    pub fn new(index: usize) -> (r: UvMeshHandle)
        ensures
            r.index == index,
    {
        UvMeshHandle { index }
    }
}

/// Handle to a loaded model: the index of its slot.
#[derive(Clone, Copy, Debug, PartialEq, Eq, Structural)]
pub struct ModelHandle {
    pub index: usize,
}

impl ModelHandle {
    pub fn new(index: usize) -> (r: ModelHandle)
        ensures
            r.index == index,
    {
        ModelHandle { index }
    }
}

/// Places `object` in the first free slot, or appends a slot when every slot
/// is occupied, and returns the chosen index.
pub fn put_in_first_slot<T>(vec: &mut Vec<Option<T>>, object: T) -> (i: usize)
    ensures
        i < final(vec)@.len(),
        old(vec)@[i as int] is None || i == old(vec)@.len(),
        forall|j: int| 0 <= j < i ==> old(vec)@[j] is Some,
        final(vec)@ == if i < old(vec)@.len() {
            old(vec)@.update(i as int, Some(object))
        } else {
            old(vec)@.push(Some(object))
        },
{
    let n = vec.len();
    let mut i: usize = 0;
    while i < n
        invariant
            n == vec@.len(),
            i <= n,
            *vec == *old(vec),
            forall|j: int| 0 <= j < i ==> old(vec)@[j] is Some,
        decreases n - i,
    {
        if vec[i].is_none() {
            vec[i] = Some(object);
            return i;
        }
        i += 1;
    }
    vec.push(Some(object));
    n
}

/// Copies a vector of plain values element by element.
pub fn clone_vec_copy<T: Copy>(v: &Vec<T>) -> (r: Vec<T>)
    ensures
        r@ == v@,
{
    let mut r: Vec<T> = Vec::new();
    let n = v.len();
    let mut i: usize = 0;
    while i < n
        invariant
            n == v@.len(),
            i <= n,
            r@ == v@.subrange(0, i as int),
        decreases n - i,
    {
        r.push(v[i]);
        i += 1;
    }
    proof {
        assert(r@ =~= v@);
    }
    r
}

impl WgpuRenderer {
    /// Loads a mesh with colored vertices into the first free color-mesh
    /// slot, with no instances yet.
    pub fn load_color_mesh(&mut self, vertices: Vec<ColorVertex>, indices: Option<Vec<u16>>) -> (r:
        ColorMeshHandle)
        ensures
            *final(self) == (WgpuRenderer {
                color_meshes: final(self).color_meshes,
                ..*old(self)
            }),
            r.index < final(self).color_meshes@.len(),
            forall|j: int| 0 <= j < r.index ==> old(self).color_meshes@[j] is Some,
            r.index == old(self).color_meshes@.len() || old(self).color_meshes@[r.index as int] is None,
            final(self).color_meshes@.len() == if r.index < old(self).color_meshes@.len() {
                old(self).color_meshes@.len()
            } else {
                old(self).color_meshes@.len() + 1
            },
            forall|j: int|
                0 <= j < old(self).color_meshes@.len() && j != r.index ==> final(self).color_meshes@[j] == old(self).color_meshes@[j],
            final(self).color_meshes@[r.index as int] matches Some(m) && m.vertices == vertices
                && m.indices == indices && m.instances@.len() == 0 && m.buffered@.len() == 0,
    {
        let mesh = ColorMesh::from_vertices_and_indices(vertices, indices);
        ColorMeshHandle::new(put_in_first_slot(&mut self.color_meshes, mesh))
    }

    /// Clears a color-mesh slot; the handle must address an existing slot
    /// and becomes invalid.
    pub fn remove_color_mesh(&mut self, mesh: &ColorMeshHandle)
        requires
            mesh.index < old(self).color_meshes@.len(),
        ensures
            *final(self) == (WgpuRenderer {
                color_meshes: final(self).color_meshes,
                ..*old(self)
            }),
            final(self).color_meshes@ == old(self).color_meshes@.update(
                mesh.index as int,
                None::<ColorMesh>,
            ),
    {
        self.color_meshes[mesh.index] = None;
    }

    /// Hands out a color mesh's instance list for in-place editing. The
    /// GPU-visible buffer is untouched until the mesh is flushed. The handle
    /// must address a live slot.
    pub fn color_mesh_instances(&mut self, mesh: &ColorMeshHandle) -> (r: &mut Vec<
        ColorMeshInstance,
    >)
        requires
            mesh.index < old(self).color_meshes@.len(),
            old(self).color_meshes@[mesh.index as int] is Some,
        ensures
            *r == old(self).color_meshes@[mesh.index as int]->0.instances,
            *final(self) == (WgpuRenderer {
                color_meshes: final(self).color_meshes,
                ..*old(self)
            }),
            final(self).color_meshes@ == old(self).color_meshes@.update(
                mesh.index as int,
                Some(
                    ColorMesh {
                        instances: *final(r),
                        ..old(self).color_meshes@[mesh.index as int]->0
                    },
                ),
            ),
    {
        match &mut self.color_meshes[mesh.index] {
            Some(m) => &mut m.instances,
            None => unreached(),
        }
    }

    /// Flushes a color mesh's instance list into its GPU-visible buffer; a
    /// no-op on a cleared slot. Must be called for instance edits to become
    /// visible in the next frame.
    pub fn update_color_mesh(&mut self, mesh: &ColorMeshHandle)
        requires
            mesh.index < old(self).color_meshes@.len(),
        ensures
            *final(self) == (WgpuRenderer {
                color_meshes: final(self).color_meshes,
                ..*old(self)
            }),
            old(self).color_meshes@[mesh.index as int] matches Some(m) ==> final(self).color_meshes@ == old(self).color_meshes@.update(
                mesh.index as int,
                Some(ColorMesh { buffered: final(self).color_meshes@[mesh.index as int]->0.buffered, ..m }),
            ) && final(self).color_meshes@[mesh.index as int]->0.buffered@ == m.instances@,
            old(self).color_meshes@[mesh.index as int] is None ==> final(self).color_meshes@ == old(self).color_meshes@,
    {
        match &mut self.color_meshes[mesh.index] {
            Some(m) => m.update(),
            None => {},
        }
        proof {
            if old(self).color_meshes@[mesh.index as int] is None {
                assert(self.color_meshes@ =~= old(self).color_meshes@);
            }
        }
    }

    /// Loads a textured mesh (vertices, optional indices, decoded texture)
    /// into the first free textured-mesh slot, with no instances yet.
    pub fn load_uv_mesh(
        &mut self,
        vertices: Vec<UvVertex>,
        indices: Option<Vec<u16>>,
        texture: Texture,
    ) -> (r: UvMeshHandle)
        ensures
            *final(self) == (WgpuRenderer { uv_meshes: final(self).uv_meshes, ..*old(self) }),
            r.index < final(self).uv_meshes@.len(),
            forall|j: int| 0 <= j < r.index ==> old(self).uv_meshes@[j] is Some,
            r.index == old(self).uv_meshes@.len() || old(self).uv_meshes@[r.index as int] is None,
            final(self).uv_meshes@.len() == if r.index < old(self).uv_meshes@.len() {
                old(self).uv_meshes@.len()
            } else {
                old(self).uv_meshes@.len() + 1
            },
            forall|j: int|
                0 <= j < old(self).uv_meshes@.len() && j != r.index ==> final(self).uv_meshes@[j] == old(self).uv_meshes@[j],
            final(self).uv_meshes@[r.index as int] matches Some(m) && m.vertices == vertices
                && m.indices == indices && m.diffuse_texture == texture && m.instances@.len() == 0
                && m.buffered@.len() == 0,
    {
        let mesh = UvModel::new(vertices, indices, texture);
        UvMeshHandle::new(put_in_first_slot(&mut self.uv_meshes, mesh))
    }

    /// Clears a textured-mesh slot; the handle must address an existing slot
    /// and becomes invalid.
    pub fn remove_uv_mesh(&mut self, mesh: &UvMeshHandle)
        requires
            mesh.index < old(self).uv_meshes@.len(),
        ensures
            *final(self) == (WgpuRenderer { uv_meshes: final(self).uv_meshes, ..*old(self) }),
            final(self).uv_meshes@ == old(self).uv_meshes@.update(
                mesh.index as int,
                None::<UvModel>,
            ),
    {
        self.uv_meshes[mesh.index] = None;
    }

    /// Hands out a textured mesh's instance list for in-place editing. The
    /// GPU-visible buffer is untouched until the mesh is flushed. The handle
    /// must address a live slot.
    pub fn uv_mesh_instances(&mut self, mesh: &UvMeshHandle) -> (r: &mut Vec<Transform>)
        requires
            mesh.index < old(self).uv_meshes@.len(),
            old(self).uv_meshes@[mesh.index as int] is Some,
        ensures
            *r == old(self).uv_meshes@[mesh.index as int]->0.instances,
            *final(self) == (WgpuRenderer { uv_meshes: final(self).uv_meshes, ..*old(self) }),
            final(self).uv_meshes@ == old(self).uv_meshes@.update(
                mesh.index as int,
                Some(
                    UvModel { instances: *final(r), ..old(self).uv_meshes@[mesh.index as int]->0 },
                ),
            ),
    {
        match &mut self.uv_meshes[mesh.index] {
            Some(m) => &mut m.instances,
            None => unreached(),
        }
    }

    /// Flushes a textured mesh's instance list into its GPU-visible buffer;
    /// a no-op on a cleared slot. Must be called for instance edits to
    /// become visible in the next frame.
    pub fn update_uv_mesh(&mut self, mesh: &UvMeshHandle)
        requires
            mesh.index < old(self).uv_meshes@.len(),
        ensures
            *final(self) == (WgpuRenderer { uv_meshes: final(self).uv_meshes, ..*old(self) }),
            old(self).uv_meshes@[mesh.index as int] matches Some(m) ==> final(self).uv_meshes@
                == old(self).uv_meshes@.update(
                mesh.index as int,
                Some(UvModel { buffered: final(self).uv_meshes@[mesh.index as int]->0.buffered, ..m }),
            ) && final(self).uv_meshes@[mesh.index as int]->0.buffered@ == m.instances@,
            old(self).uv_meshes@[mesh.index as int] is None ==> final(self).uv_meshes@ == old(self).uv_meshes@,
    {
        match &mut self.uv_meshes[mesh.index] {
            Some(m) => m.update(),
            None => {},
        }
        proof {
            if old(self).uv_meshes@[mesh.index as int] is None {
                assert(self.uv_meshes@ =~= old(self).uv_meshes@);
            }
        }
    }

    /// Writes raw pixel bytes into a textured mesh's texture, reallocating
    /// the texture when the data outgrows it. A no-op on a cleared slot.
    pub fn write_raw_texture_to_uv_mesh(
        &mut self,
        mesh: &UvMeshHandle,
        size: (u32, u32),
        data: &[u8],
    )
        requires
            mesh.index < old(self).uv_meshes@.len(),
            size.0 * size.1 * 4 <= u32::MAX,
            data@.len() == size.0 * size.1 * 4,
            old(self).uv_meshes@[mesh.index as int] matches Some(m) ==> m.diffuse_texture.width
                * m.diffuse_texture.height * 4 <= u32::MAX,
        ensures
            *final(self) == (WgpuRenderer { uv_meshes: final(self).uv_meshes, ..*old(self) }),
            old(self).uv_meshes@[mesh.index as int] is None ==> final(self).uv_meshes@ == old(self).uv_meshes@,
            old(self).uv_meshes@[mesh.index as int] matches Some(m) ==> final(self).uv_meshes@
                == old(self).uv_meshes@.update(
                mesh.index as int,
                Some(
                    UvModel {
                        diffuse_texture: final(self).uv_meshes@[mesh.index as int]->0.diffuse_texture,
                        ..m
                    },
                ),
            ) && {
                let t2 = final(self).uv_meshes@[mesh.index as int]->0.diffuse_texture;
                let grew = data@.len() > m.diffuse_texture.width * m.diffuse_texture.height * 4;
                t2.data@ == data@ && (grew ==> t2.width == size.0 && t2.height == size.1) && (!grew
                    ==> t2.width == m.diffuse_texture.width && t2.height
                    == m.diffuse_texture.height)
            },
    {
        match &mut self.uv_meshes[mesh.index] {
            Some(m) => {
                let _grew = m.diffuse_texture.write_raw(size, data);
            },
            None => {},
        }
        proof {
            if old(self).uv_meshes@[mesh.index as int] is None {
                assert(self.uv_meshes@ =~= old(self).uv_meshes@);
            }
        }
    }

    /// Loads a model (already-parsed sub-meshes and materials) into the
    /// first free model slot, with no instances yet.
    pub fn load_model(&mut self, meshes: Vec<ModelMesh>, materials: Vec<Material>) -> (r:
        ModelHandle)
        ensures
            *final(self) == (WgpuRenderer { models: final(self).models, ..*old(self) }),
            r.index < final(self).models@.len(),
            forall|j: int| 0 <= j < r.index ==> old(self).models@[j] is Some,
            r.index == old(self).models@.len() || old(self).models@[r.index as int] is None,
            final(self).models@.len() == if r.index < old(self).models@.len() {
                old(self).models@.len()
            } else {
                old(self).models@.len() + 1
            },
            forall|j: int|
                0 <= j < old(self).models@.len() && j != r.index ==> final(self).models@[j] == old(self).models@[j],
            final(self).models@[r.index as int] matches Some(m) && m.meshes == meshes
                && m.materials == materials && m.instances@.len() == 0 && m.buffered@.len() == 0,
    {
        let model = Model::from_mesh_and_materials(meshes, materials);
        ModelHandle::new(put_in_first_slot(&mut self.models, model))
    }

    /// Clears a model slot; the handle must address an existing slot and
    /// becomes invalid.
    pub fn remove_model(&mut self, model: ModelHandle)
        requires
            model.index < old(self).models@.len(),
        ensures
            *final(self) == (WgpuRenderer { models: final(self).models, ..*old(self) }),
            final(self).models@ == old(self).models@.update(model.index as int, None::<Model>),
    {
        self.models[model.index] = None;
    }

    /// Hands out a model's instance list for in-place editing. The
    /// GPU-visible buffer is untouched until the model is flushed. The
    /// handle must address a live slot.
    pub fn model_instances(&mut self, model: &ModelHandle) -> (r: &mut Vec<Transform>)
        requires
            model.index < old(self).models@.len(),
            old(self).models@[model.index as int] is Some,
        ensures
            *r == old(self).models@[model.index as int]->0.instances,
            *final(self) == (WgpuRenderer { models: final(self).models, ..*old(self) }),
            final(self).models@ == old(self).models@.update(
                model.index as int,
                Some(Model { instances: *final(r), ..old(self).models@[model.index as int]->0 }),
            ),
    {
        match &mut self.models[model.index] {
            Some(m) => &mut m.instances,
            None => unreached(),
        }
    }

    /// Flushes a model's instance list into its GPU-visible buffer; a no-op
    /// on a cleared slot. Must be called for instance edits to become
    /// visible in the next frame.
    pub fn update_model(&mut self, model: &ModelHandle)
        requires
            model.index < old(self).models@.len(),
        ensures
            *final(self) == (WgpuRenderer { models: final(self).models, ..*old(self) }),
            old(self).models@[model.index as int] matches Some(m) ==> final(self).models@ == old(self).models@.update(
                model.index as int,
                Some(Model { buffered: final(self).models@[model.index as int]->0.buffered, ..m }),
            ) && final(self).models@[model.index as int]->0.buffered@ == m.instances@,
            old(self).models@[model.index as int] is None ==> final(self).models@ == old(self).models@,
    {
        match &mut self.models[model.index] {
            Some(m) => m.update(),
            None => {},
        }
        proof {
            if old(self).models@[model.index as int] is None {
                assert(self.models@ =~= old(self).models@);
            }
        }
    }

    /// Hands out the line list for editing, marking it changed so that the
    /// next renderer update flushes the line vertex buffer.
    pub fn lines(&mut self) -> (r: &mut Vec<Line>)
        ensures
            *r == old(self).lines.lines,
            *final(self) == (WgpuRenderer {
                lines: Lines {
                    lines: *final(r),
                    changed: true,
                    buffered: old(self).lines.buffered,
                },
                ..*old(self)
            }),
    {
        self.lines.lines()
    }
}

/// Appends a copy of every element of `src` to `dst`, in order.
pub fn push_all<T: Copy>(dst: &mut Vec<T>, src: &Vec<T>)
    ensures
        final(dst)@ == old(dst)@ + src@,
{
    let n = src.len();
    let mut i: usize = 0;
    while i < n
        invariant
            i <= n,
            n == src@.len(),
            dst@ == old(dst)@ + src@.subrange(0, i as int),
        decreases n - i,
    {
        proof {
            assert(src@.subrange(0, i as int + 1) =~= src@.subrange(0, i as int).push(
                src@[i as int],
            ));
        }
        dst.push(src[i]);
        i += 1;
    }
    proof {
        assert(src@.subrange(0, n as int) =~= src@);
    }
}

/// Copies a slice of plain values element by element.
pub fn slice_to_vec_copy<T: Copy>(s: &[T]) -> (r: Vec<T>)
    ensures
        r@ == s@,
{
    let mut r: Vec<T> = Vec::new();
    let n = s.len();
    let mut i: usize = 0;
    while i < n
        invariant
            n == s@.len(),
            i <= n,
            r@ == s@.subrange(0, i as int),
        decreases n - i,
    {
        r.push(s[i]);
        i += 1;
    }
    proof {
        assert(r@ =~= s@);
    }
    r
}

} // verus!
