//! Shader hot-reload decisions. The embedding application watches shader
//! files on a background thread and drains the change notifications into a
//! plain list once per frame; the decision whether a rebuild is due is made
//! here.

use vstd::prelude::*;

verus! {

broadcast use vstd::string::to_string_from_display_ensures_for_str;

/// Source language of a shader module.
#[derive(Clone, Copy, Debug, PartialEq, Eq, Structural)]
pub enum ShaderType {
    Glsl,
    Wgsl,
    Spirv,
}

/// One drained file-watcher notification: a write to the watched file, or
/// anything else.
#[derive(Clone, Copy, Debug, PartialEq, Eq, Structural)]
pub enum WatchEvent {
    NoticeWrite,
    Other,
}

/// A pipeline pair (shadow and forward) that a changed shader rebuilds.
#[derive(Clone, Copy, Debug, PartialEq, Eq, Structural)]
pub enum PipelineGroup {
    ColorMesh,
    UvMesh,
    Model,
    Line,
}

/// Which pipeline pair the shader module of the given name feeds.
pub open spec fn spec_pipelines_to_rebuild(name: Seq<char>) -> Option<PipelineGroup> {
    if name == "color_mesh"@ {
        Some(PipelineGroup::ColorMesh)
    } else if name == "uv_mesh"@ {
        Some(PipelineGroup::UvMesh)
    } else if name == "model_bake"@ || name == "model_vs"@ || name == "model_fs"@ {
        Some(PipelineGroup::Model)
    } else if name == "line_shader"@ {
        Some(PipelineGroup::Line)
    } else {
        None
    }
}

/// After reloading the shader module of the given name, which pipeline pair
/// must be rebuilt with it; a module no pipeline uses rebuilds nothing.
pub fn pipelines_to_rebuild(name: &String) -> (r: Option<PipelineGroup>)
    ensures
        r == spec_pipelines_to_rebuild(name@),
{
    let color_mesh = "color_mesh".to_string();
    let uv_mesh = "uv_mesh".to_string();
    let model_bake = "model_bake".to_string();
    let model_vs = "model_vs".to_string();
    let model_fs = "model_fs".to_string();
    let line_shader = "line_shader".to_string();
    if *name == color_mesh {
        Some(PipelineGroup::ColorMesh)
    } else if *name == uv_mesh {
        Some(PipelineGroup::UvMesh)
    } else if *name == model_bake || *name == model_vs || *name == model_fs {
        Some(PipelineGroup::Model)
    } else if *name == line_shader {
        Some(PipelineGroup::Line)
    } else {
        None
    }
}

/// Whether the drained notifications ask for a shader rebuild: true exactly
/// when some notification is a write.
pub fn check_for_writes(events: &Vec<WatchEvent>) -> (update: bool)
    ensures
        update == exists|i: int| 0 <= i < events@.len() && events@[i] is NoticeWrite,
{
    let n = events.len();
    let mut i: usize = 0;
    while i < n
        invariant
            i <= n,
            n == events@.len(),
            forall|j: int| 0 <= j < i ==> !(events@[j] is NoticeWrite),
        decreases n - i,
    {
        if let WatchEvent::NoticeWrite = events[i] {
            return true;
        }
        i += 1;
    }
    false
}

} // verus!
