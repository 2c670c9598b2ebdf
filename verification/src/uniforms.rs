//! The per-frame global uniform block, rebuilt on every renderer update: the
//! camera descriptor (from which the application derives the projection
//! matrix and camera position when encoding bytes), the light counts, the
//! ambient color and the lighting switch.

use crate::camera::Camera;
use crate::math::Vec4;
use vstd::prelude::*;

verus! {

/// Global uniform data shared by all forward passes.
#[derive(Clone, Copy, Debug)]
pub struct GlobalUniforms {
    pub camera: Camera,
    pub num_real_lights: u32,
    pub num_simple_lights: u32,
    pub ambient_light: Vec4,
    pub lighting_enabled: u32,
}

} // verus!
