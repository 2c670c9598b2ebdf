//! Core state and scheduling logic of a small forward renderer with shadow
//! mapping: a bounded pool of shadow-casting lights with layer reuse, sparse
//! mesh stores with an explicit flush discipline, exact integer transform
//! math, and the per-frame pass plan.
//!
//! All coordinates, colors and other scalar quantities are carried as plain
//! `i64` values; how they are scaled and converted for the GPU is the
//! embedding application's business, as are window, surface and device
//! handling.

pub mod camera;
pub mod canvas;
pub mod color_mesh;
pub mod light;
pub mod lines;
pub mod math;
pub mod meshes;
pub mod model;
pub mod render;
pub mod resize;
pub mod shader;
pub mod text;
pub mod texture;
pub mod transform;
pub mod uniforms;
pub mod update;
pub mod uv_mesh;

use crate::camera::{Camera, ViewMatrixMode};
use crate::color_mesh::ColorMesh;
use crate::light::{active_count, RealLight, RealLightRaw, SimpleLight, SimpleLightRaw};
use crate::lines::{Line, Lines};
use crate::math::{Vec3, Vec4};
use crate::model::Model;
use crate::text::Paragraph;
use crate::uniforms::GlobalUniforms;
use crate::uv_mesh::UvModel;
use vstd::prelude::*;

verus! {

/// Default bound on simultaneously active shadow-casting lights: the pooled
/// shadow texture is allocated with this many layers.
pub const MAX_LIGHTS: u32 = 10;

/// Default shadow-map resolution, per side.
pub const DEFAULT_SHADOW_RESOLUTION: u32 = 512;

/// The whole renderer state the library reasons about: light pool, mesh
/// stores, text, camera, the mirrors of the two light storage buffers, and
/// the window size. The GPU objects these describe live in the embedding
/// application.
pub struct WgpuRenderer {
    pub global_uniforms: GlobalUniforms,
    pub real_lights: Vec<RealLight>,
    pub lights_are_dirty: bool,
    pub color_meshes: Vec<Option<ColorMesh>>,
    pub uv_meshes: Vec<Option<UvModel>>,
    pub models: Vec<Option<Model>>,
    pub lines: Lines,
    pub camera: Camera,
    pub paragraphs: Vec<Paragraph>,
    pub simple_lights: Vec<SimpleLight>,
    pub simple_lights_buffer: Vec<SimpleLightRaw>,
    pub real_lights_buffer: Vec<RealLightRaw>,
    pub max_real_lights: u32,
    pub shadow_resolution: [u32; 2],
    pub width: u32,
    pub height: u32,
}

impl WgpuRenderer {
    /// The light pool's invariant: never more live lights than the layer
    /// bound, never more slots than layers (a slot owns the layer of its own
    /// index, recorded in `layer`).
    pub open spec fn wf(self) -> bool {
        &&& active_count(self.real_lights@) <= self.max_real_lights as int
        &&& self.real_lights@.len() <= self.max_real_lights as int
        &&& forall|i: int|
            0 <= i < self.real_lights@.len() ==> (#[trigger] self.real_lights@[i]).layer == i
    }

    /// A fresh renderer for a surface of the given size: empty stores, no
    /// lights, default camera, lighting on, shadow maps at the default
    /// resolution.
    pub fn new(width: u32, height: u32) -> (r: WgpuRenderer)
        ensures
            r.wf(),
            r.real_lights@ == Seq::<RealLight>::empty(),
            r.lights_are_dirty,
            r.color_meshes@ == Seq::<Option<ColorMesh>>::empty(),
            r.uv_meshes@ == Seq::<Option<UvModel>>::empty(),
            r.models@ == Seq::<Option<Model>>::empty(),
            r.lines.lines@ == Seq::<Line>::empty(),
            r.lines.buffered@ == Seq::<Line>::empty(),
            r.paragraphs@ == Seq::<Paragraph>::empty(),
            r.simple_lights@ == Seq::<SimpleLight>::empty(),
            r.simple_lights_buffer@ == Seq::<SimpleLightRaw>::empty(),
            r.real_lights_buffer@ == Seq::<RealLightRaw>::empty(),
            r.max_real_lights == MAX_LIGHTS,
            r.shadow_resolution == [DEFAULT_SHADOW_RESOLUTION, DEFAULT_SHADOW_RESOLUTION],
            r.width == width,
            r.height == height,
            r.camera == (Camera {
                eye: Vec3 { x: 0, y: 0, z: 0 },
                target: Vec3 { x: 1, y: 0, z: 0 },
                up: Vec3 { x: 0, y: 1, z: 0 },
                aspect: 1,
                mode: ViewMatrixMode::Perspective { near: 0, far: 100, fov: 1 },
            }),
            r.global_uniforms.camera == r.camera,
            r.global_uniforms.num_real_lights == 0,
            r.global_uniforms.num_simple_lights == 0,
            r.global_uniforms.ambient_light == (Vec4 { x: 0, y: 0, z: 0, w: 1 }),
            r.global_uniforms.lighting_enabled == 1,
    {
        let camera = Camera {
            eye: Vec3 { x: 0, y: 0, z: 0 },
            target: Vec3 { x: 1, y: 0, z: 0 },
            up: Vec3 { x: 0, y: 1, z: 0 },
            aspect: 1,
            mode: ViewMatrixMode::Perspective { near: 0, far: 100, fov: 1 },
        };
        WgpuRenderer {
            global_uniforms: GlobalUniforms {
                camera,
                num_real_lights: 0,
                num_simple_lights: 0,
                ambient_light: Vec4 { x: 0, y: 0, z: 0, w: 1 },
                lighting_enabled: 1,
            },
            real_lights: Vec::new(),
            lights_are_dirty: true,
            color_meshes: Vec::new(),
            uv_meshes: Vec::new(),
            models: Vec::new(),
            lines: Lines::new(),
            camera,
            paragraphs: Vec::new(),
            simple_lights: Vec::new(),
            simple_lights_buffer: Vec::new(),
            real_lights_buffer: Vec::new(),
            max_real_lights: MAX_LIGHTS,
            shadow_resolution: [DEFAULT_SHADOW_RESOLUTION, DEFAULT_SHADOW_RESOLUTION],
            width,
            height,
        }
    }

    /// Hands out the simple-light list for editing (append or clear at will;
    /// the next update rewrites the whole storage buffer anyway).
    pub fn simple_lights(&mut self) -> (r: &mut Vec<SimpleLight>)
        ensures
            *r == old(self).simple_lights,
            *final(self) == (WgpuRenderer { simple_lights: *final(r), ..*old(self) }),
    {
        &mut self.simple_lights
    }

    /// Appends a simple light.
    pub fn add_simple_light(&mut self, light: SimpleLight)
        ensures
            *final(self) == (WgpuRenderer {
                simple_lights: final(self).simple_lights,
                ..*old(self)
            }),
            final(self).simple_lights@ == old(self).simple_lights@.push(light),
    {
        self.simple_lights.push(light);
    }

    /// Hands out the camera for editing.
    pub fn camera(&mut self) -> (r: &mut Camera)
        ensures
            *r == old(self).camera,
            *final(self) == (WgpuRenderer { camera: *final(r), ..*old(self) }),
    {
        &mut self.camera
    }

    /// Hands out the paragraph list for editing.
    pub fn paragraphs(&mut self) -> (r: &mut Vec<Paragraph>)
        ensures
            *r == old(self).paragraphs,
            *final(self) == (WgpuRenderer { paragraphs: *final(r), ..*old(self) }),
    {
        &mut self.paragraphs
    }

    /// Turns all lighting calculation in the shaders on or off.
    pub fn enable_lighting(&mut self, enabled: bool)
        ensures
            *final(self) == (WgpuRenderer {
                global_uniforms: GlobalUniforms {
                    lighting_enabled: if enabled {
                        1
                    } else {
                        0
                    },
                    ..old(self).global_uniforms
                },
                ..*old(self)
            }),
    {
        self.global_uniforms.lighting_enabled = if enabled {
            1
        } else {
            0
        };
    }
}

} // verus!
