use finger_paint_wgpu::camera::{Camera, ViewMatrixMode};
use finger_paint_wgpu::color_mesh::{ColorMeshInstance, ColorVertex, Lighting};
use finger_paint_wgpu::light::{LightAttenuation, RealLightPublic};
use finger_paint_wgpu::math::{Vec2, Vec3, Vec4};
use finger_paint_wgpu::render::{GeometryKind, RenderStep};
use finger_paint_wgpu::shader::{check_for_writes, pipelines_to_rebuild, PipelineGroup, WatchEvent};
use finger_paint_wgpu::text::{HorizontalAlign, Paragraph, TextSection, VerticalAlign};
use finger_paint_wgpu::transform::Transform;
use finger_paint_wgpu::WgpuRenderer;

fn a_light() -> RealLightPublic {
    RealLightPublic {
        camera: Camera::new(
            Vec3::new(0, 10, 0),
            Vec3::new(0, 0, 0),
            Vec3::new(1, 0, 0),
            1,
            ViewMatrixMode::Orthographic { left: -5, right: 5, bottom: -5, top: 5, near: 1, far: 20 },
        ),
        color: Vec4::new(1, 1, 1, 1),
        default: 1,
        attenuation: LightAttenuation { constant: 1, linear: 0, quadratic: 0 },
    }
}

fn a_paragraph() -> Paragraph {
    Paragraph {
        vertical_alignment: VerticalAlign::Top,
        horizontal_alignment: HorizontalAlign::Left,
        position: Vec2::new(0, 0),
        sections: vec![TextSection {
            text: String::from("hello"),
            color: Vec4::new(1, 1, 1, 1),
            scale: 25,
            font: 0,
        }],
    }
}

#[test]
fn empty_scene_renders_forward_and_text_only() {
    let mut r = WgpuRenderer::new(640, 480);
    r.update();
    let plan = r.render();
    assert_eq!(
        plan,
        vec![RenderStep::BeginForwardPass, RenderStep::TextPass { paragraphs: 0 }]
    );
}

#[test]
fn full_scene_plan_runs_sync_shadow_forward_text_in_order() {
    let mut r = WgpuRenderer::new(640, 480);
    r.add_real_light(a_light()).unwrap();
    let h = r.load_color_mesh(
        vec![ColorVertex::new(Vec3::new(0, 0, 0), Vec3::new(0, 1, 0), Vec4::new(1, 0, 0, 1))],
        None,
    );
    r.color_mesh_instances(&h).push(ColorMeshInstance {
        transform: Transform::new(),
        lighting: Lighting { specular_strength: 1, specular_spread: 1, diffuse_strength: 1 },
    });
    r.update_color_mesh(&h);
    r.paragraphs().push(a_paragraph());
    r.update();
    r.update_real_lights();

    let draw = RenderStep::DrawColorMesh {
        slot: 0,
        indexed: false,
        vertex_count: 1,
        index_count: 0,
        instance_count: 1,
    };
    let plan = r.render();
    assert_eq!(
        plan,
        vec![
            RenderStep::WriteLight { slot: 0 },
            RenderStep::CopyLightMatrix { kind: GeometryKind::ColorMesh, slot: 0 },
            RenderStep::BeginShadowPass { light_slot: 0, layer: 0 },
            draw,
            RenderStep::BeginForwardPass,
            draw,
            RenderStep::TextPass { paragraphs: 1 },
        ]
    );
}

#[test]
fn unflushed_mesh_and_dead_light_are_skipped() {
    let mut r = WgpuRenderer::new(640, 480);
    r.add_real_light(a_light()).unwrap();
    r.remove_real_light(0);
    // Loaded but never flushed: no instances in the buffer, so no draws; but
    // the store is non-empty, so the matrix copy for its shadow pipeline
    // would still run if any light were live.
    let _h = r.load_color_mesh(
        vec![ColorVertex::new(Vec3::new(0, 0, 0), Vec3::new(0, 1, 0), Vec4::new(1, 0, 0, 1))],
        None,
    );
    r.update();
    let plan = r.render();
    assert_eq!(
        plan,
        vec![
            RenderStep::WriteLight { slot: 0 },
            RenderStep::BeginForwardPass,
            RenderStep::TextPass { paragraphs: 0 },
        ]
    );
}

#[test]
fn each_live_light_gets_its_own_shadow_pass() {
    let mut r = WgpuRenderer::new(640, 480);
    r.add_real_light(a_light()).unwrap();
    r.add_real_light(a_light()).unwrap();
    r.add_real_light(a_light()).unwrap();
    r.remove_real_light(1);
    r.update();
    let plan = r.render();
    let passes: Vec<&RenderStep> = plan
        .iter()
        .filter(|s| matches!(s, RenderStep::BeginShadowPass { .. }))
        .collect();
    assert_eq!(
        passes,
        vec![
            &RenderStep::BeginShadowPass { light_slot: 0, layer: 0 },
            &RenderStep::BeginShadowPass { light_slot: 2, layer: 2 },
        ]
    );
}

#[test]
fn dirty_flag_is_consumed_by_render() {
    let mut r = WgpuRenderer::new(640, 480);
    r.add_real_light(a_light()).unwrap();
    r.update();
    let first = r.render();
    assert_eq!(first[0], RenderStep::WriteLight { slot: 0 });
    let second = r.render();
    assert!(!second.iter().any(|s| matches!(s, RenderStep::WriteLight { .. })));
    r.update_real_lights();
    let third = r.render();
    assert_eq!(third[0], RenderStep::WriteLight { slot: 0 });
}

#[test]
fn update_rebuilds_global_uniforms_and_light_buffers() {
    let mut r = WgpuRenderer::new(640, 480);
    r.add_real_light(a_light()).unwrap();
    r.add_real_light(a_light()).unwrap();
    r.remove_real_light(1);
    r.enable_lighting(false);
    r.update();
    // Slot count, not live count: the shaders read the per-record flag.
    assert_eq!(r.global_uniforms.num_real_lights, 2);
    assert_eq!(r.global_uniforms.num_simple_lights, 0);
    assert_eq!(r.global_uniforms.lighting_enabled, 0);
    assert_eq!(r.global_uniforms.camera, r.camera);
    assert_eq!(r.real_lights_buffer.len(), 2);
    assert_eq!(r.real_lights_buffer[0].active, 1);
    assert_eq!(r.real_lights_buffer[1].active, 0);
}

#[test]
fn resize_clamps_and_updates_aspect() {
    let mut r = WgpuRenderer::new(640, 480);
    r.resize((200, 100));
    assert_eq!((r.width, r.height), (200, 100));
    assert_eq!(r.camera.aspect, 2 * 65536);
    assert_eq!(r.aspect(), 2 * 65536);
    r.resize((-7, 0));
    assert_eq!((r.width, r.height), (1, 1));
    assert_eq!(r.camera.aspect, 65536);
}

#[test]
fn camera_keeps_direction_when_repositioned() {
    let mut c = Camera::new(
        Vec3::new(0, 0, 0),
        Vec3::new(2, 0, 1),
        Vec3::new(0, 1, 0),
        1,
        ViewMatrixMode::Perspective { near: 1, far: 10, fov: 1 },
    );
    assert_eq!(c.get_direction(), Vec3::new(2, 0, 1));
    c.set_position(Vec3::new(5, 5, 5));
    assert_eq!(c.get_position(), Vec3::new(5, 5, 5));
    assert_eq!(c.get_direction(), Vec3::new(2, 0, 1));
    c.set_direction(Vec3::new(0, -1, 0));
    assert_eq!(c.get_direction(), Vec3::new(0, -1, 0));
    c.set_far(99);
    c.set_near(2);
    c.set_fov(3);
    assert_eq!(*c.get_mode(), ViewMatrixMode::Perspective { near: 2, far: 99, fov: 3 });
}

#[test]
fn shader_rebuild_runs_only_after_a_write_notification() {
    assert!(!check_for_writes(&vec![]));
    assert!(!check_for_writes(&vec![WatchEvent::Other, WatchEvent::Other]));
    assert!(check_for_writes(&vec![WatchEvent::Other, WatchEvent::NoticeWrite]));
}

#[test]
fn changed_shader_names_map_to_their_pipelines() {
    assert_eq!(
        pipelines_to_rebuild(&String::from("color_mesh")),
        Some(PipelineGroup::ColorMesh)
    );
    assert_eq!(pipelines_to_rebuild(&String::from("uv_mesh")), Some(PipelineGroup::UvMesh));
    assert_eq!(pipelines_to_rebuild(&String::from("model_bake")), Some(PipelineGroup::Model));
    assert_eq!(pipelines_to_rebuild(&String::from("model_vs")), Some(PipelineGroup::Model));
    assert_eq!(pipelines_to_rebuild(&String::from("model_fs")), Some(PipelineGroup::Model));
    assert_eq!(pipelines_to_rebuild(&String::from("line_shader")), Some(PipelineGroup::Line));
    assert_eq!(pipelines_to_rebuild(&String::from("skybox")), None);
}
