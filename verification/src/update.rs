//! The per-frame update step: rebuilds the global uniform block from the
//! camera and the light counts, rewrites both light storage buffers wholesale
//! from the current lights, and flushes the line vertex buffer. Must run
//! before the frame is rendered.

use crate::light::{RealLight, RealLightRaw, SimpleLight, SimpleLightRaw};
use crate::uniforms::GlobalUniforms;
use crate::WgpuRenderer;
use vstd::prelude::*;

verus! {

/// Flattens every simple light, in order.
fn simple_light_raws(lights: &Vec<SimpleLight>) -> (v: Vec<SimpleLightRaw>)
    ensures
        v@ == lights@.map_values(|l: SimpleLight| SimpleLightRaw::spec_from(l)),
{
    let mut v: Vec<SimpleLightRaw> = Vec::new();
    let n = lights.len();
    let mut i: usize = 0;
    while i < n
        invariant
            i <= n,
            n == lights@.len(),
            v@.len() == i,
            forall|j: int| 0 <= j < i ==> v@[j] == SimpleLightRaw::spec_from(lights@[j]),
        decreases n - i,
    {
        v.push(SimpleLightRaw::from_light(&lights[i]));
        i += 1;
    }
    proof {
        assert(v@ =~= lights@.map_values(|l: SimpleLight| SimpleLightRaw::spec_from(l)));
    }
    v
}

/// Flattens every real-light slot, in slot order.
pub(crate) fn real_light_raws(lights: &Vec<RealLight>) -> (v: Vec<RealLightRaw>)
    ensures
        v@ == lights@.map_values(|l: RealLight| l.spec_to_raw()),
{
    let mut v: Vec<RealLightRaw> = Vec::new();
    let n = lights.len();
    let mut i: usize = 0;
    while i < n
        invariant
            i <= n,
            n == lights@.len(),
            v@.len() == i,
            forall|j: int| 0 <= j < i ==> v@[j] == lights@[j].spec_to_raw(),
        decreases n - i,
    {
        v.push(lights[i].to_raw());
        i += 1;
    }
    proof {
        assert(v@ =~= lights@.map_values(|l: RealLight| l.spec_to_raw()));
    }
    v
}

impl WgpuRenderer {
    /// Synchronizes the CPU-side state into the GPU-facing mirrors: the
    /// global uniforms take the current camera and the light counts (slot
    /// counts, live or not, as the shaders read the active flag per record),
    /// both light storage buffers are rewritten wholesale from the current
    /// lights, and a changed line list is flushed. Mesh instance buffers are
    /// not touched: those flush only through their own update calls.
    pub fn update(&mut self)
        requires
            old(self).wf(),
            old(self).simple_lights@.len() <= u32::MAX,
        ensures
            final(self).wf(),
            final(self).global_uniforms == (GlobalUniforms {
                camera: old(self).camera,
                num_real_lights: old(self).real_lights@.len() as u32,
                num_simple_lights: old(self).simple_lights@.len() as u32,
                ambient_light: old(self).global_uniforms.ambient_light,
                lighting_enabled: old(self).global_uniforms.lighting_enabled,
            }),
            final(self).simple_lights_buffer@ == old(self).simple_lights@.map_values(
                |l: SimpleLight| SimpleLightRaw::spec_from(l),
            ),
            final(self).real_lights_buffer@ == old(self).real_lights@.map_values(
                |l: RealLight| l.spec_to_raw(),
            ),
            final(self).lines.lines == old(self).lines.lines,
            final(self).lines.changed == old(self).lines.changed,
            final(self).lines.buffered@ == if old(self).lines.lines@.len() > 0 && old(self).lines.changed {
                old(self).lines.lines@
            } else {
                old(self).lines.buffered@
            },
            *final(self) == (WgpuRenderer {
                global_uniforms: final(self).global_uniforms,
                simple_lights_buffer: final(self).simple_lights_buffer,
                real_lights_buffer: final(self).real_lights_buffer,
                lines: final(self).lines,
                ..*old(self)
            }),
    {
        self.global_uniforms = GlobalUniforms {
            camera: self.camera,
            num_real_lights: self.real_lights.len() as u32,
            num_simple_lights: self.simple_lights.len() as u32,
            ambient_light: self.global_uniforms.ambient_light,
            lighting_enabled: self.global_uniforms.lighting_enabled,
        };
        self.simple_lights_buffer = simple_light_raws(&self.simple_lights);
        self.real_lights_buffer = real_light_raws(&self.real_lights);
        if !self.lines.is_empty() {
            self.lines.update();
        }
    }
}

} // verus!
