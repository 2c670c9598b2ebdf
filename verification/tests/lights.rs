use finger_paint_wgpu::camera::{Camera, ViewMatrixMode};
use finger_paint_wgpu::light::{
    LightAttenuation, RealLightPublic, SimpleLight, SimpleLightKind, SimpleLightRaw,
};
use finger_paint_wgpu::math::{Vec3, Vec4};
use finger_paint_wgpu::WgpuRenderer;

fn camera_at(x: i64) -> Camera {
    Camera::new(
        Vec3::new(x, 4, 0),
        Vec3::new(0, 0, 0),
        Vec3::new(0, 1, 0),
        1,
        ViewMatrixMode::Perspective { near: 1, far: 20, fov: 1 },
    )
}

fn light(x: i64) -> RealLightPublic {
    RealLightPublic {
        camera: camera_at(x),
        color: Vec4::new(1, 1, 1, 1),
        default: 5,
        attenuation: LightAttenuation { constant: 1, linear: 2, quadratic: 3 },
    }
}

#[test]
fn ten_lights_fit_eleventh_fails_and_removed_slot_is_reused() {
    let mut r = WgpuRenderer::new(640, 480);
    for i in 0..10 {
        let ix = r.add_real_light(light(i as i64)).unwrap();
        assert_eq!(ix, i);
    }
    let err = r.add_real_light(light(99)).unwrap_err();
    assert_eq!(err, "maximum number of lights reached");

    r.remove_real_light(3);
    let ix = r.add_real_light(light(42)).unwrap();
    assert_eq!(ix, 3);
    assert_eq!(r.get_real_light(3).unwrap().camera, camera_at(42));
}

#[test]
fn removed_light_is_invisible_but_slot_stays() {
    let mut r = WgpuRenderer::new(640, 480);
    let a = r.add_real_light(light(1)).unwrap();
    let b = r.add_real_light(light(2)).unwrap();
    assert_eq!((a, b), (0, 1));

    r.remove_real_light(0);
    assert!(r.get_real_light(0).is_none());
    assert!(r.get_real_light(1).is_some());
    assert_eq!(r.real_lights.len(), 2);

    let c = r.add_real_light(light(3)).unwrap();
    assert_eq!(c, 0);
    assert_eq!(r.get_real_light(0).unwrap().camera, camera_at(3));
}

#[test]
fn lookup_out_of_range_is_absent() {
    let mut r = WgpuRenderer::new(640, 480);
    assert!(r.get_real_light(0).is_none());
    assert!(r.get_real_light(7).is_none());
    r.add_real_light(light(1)).unwrap();
    assert!(r.get_real_light(1).is_none());
}

#[test]
fn reuse_prefers_matching_resolution_slot() {
    let mut r = WgpuRenderer::new(640, 480);
    // Two slots allocated at the default 512x512 resolution, then freed.
    r.add_real_light(light(1)).unwrap();
    r.add_real_light(light(2)).unwrap();
    r.remove_real_light(0);
    r.remove_real_light(1);
    // No live lights: the resolution change reallocates nothing.
    r.set_shadow_resolution([256, 256]);
    // Both free slots mismatch 256x256: the add overwrites the latest one.
    let ix = r.add_real_light(light(3)).unwrap();
    assert_eq!(ix, 1);
    r.remove_real_light(1);
    // Now slot 0 still has 512x512, slot 1 has 256x256: reuse must pick 1.
    let ix = r.add_real_light(light(4)).unwrap();
    assert_eq!(ix, 1);
    assert_eq!(r.get_real_light(1).unwrap().camera, camera_at(4));
}

#[test]
fn resolution_change_preserves_light_data() {
    let mut r = WgpuRenderer::new(640, 480);
    r.add_real_light(light(1)).unwrap();
    r.add_real_light(light(2)).unwrap();
    r.set_shadow_resolution([1024, 1024]);
    r.set_shadow_resolution([256, 256]);
    assert_eq!(r.shadow_resolution, [256, 256]);
    let a = r.get_real_light(0).unwrap();
    let b = r.get_real_light(1).unwrap();
    assert_eq!(a, light(1));
    assert_eq!(b, light(2));
}

#[test]
fn set_real_light_updates_all_but_attenuation() {
    let mut r = WgpuRenderer::new(640, 480);
    r.add_real_light(light(1)).unwrap();
    let replacement = RealLightPublic {
        camera: camera_at(9),
        color: Vec4::new(2, 3, 4, 5),
        default: 77,
        attenuation: LightAttenuation { constant: 8, linear: 8, quadratic: 8 },
    };
    r.set_real_light(0, replacement.clone());
    let seen = r.get_real_light(0).unwrap();
    assert_eq!(seen.camera, camera_at(9));
    assert_eq!(seen.color, Vec4::new(2, 3, 4, 5));
    assert_eq!(seen.default, 77);
    // Attenuation stays as it was at creation.
    assert_eq!(
        seen.attenuation,
        LightAttenuation { constant: 1, linear: 2, quadratic: 3 }
    );
}

#[test]
fn set_real_light_ignores_dead_or_missing_slots() {
    let mut r = WgpuRenderer::new(640, 480);
    r.add_real_light(light(1)).unwrap();
    r.remove_real_light(0);
    r.set_real_light(0, light(9));
    assert!(r.get_real_light(0).is_none());
    r.set_real_light(5, light(9));
    assert_eq!(r.real_lights.len(), 1);
}

#[test]
fn real_light_flattens_with_active_flag() {
    let mut r = WgpuRenderer::new(640, 480);
    r.add_real_light(light(1)).unwrap();
    let raw = r.real_lights[0].to_raw();
    assert_eq!(raw.pos, Vec3::new(1, 4, 0));
    assert_eq!(raw.camera, camera_at(1));
    assert_eq!(raw.color, Vec4::new(1, 1, 1, 1));
    assert_eq!(raw.default, 5);
    assert_eq!((raw.constant, raw.linear, raw.quadratic), (1, 2, 3));
    assert_eq!(raw.active, 1);
    r.remove_real_light(0);
    assert_eq!(r.real_lights[0].to_raw().active, 0);
}

#[test]
fn simple_lights_flatten_with_positional_flag() {
    let directional = SimpleLight {
        color: Vec4::new(9, 8, 7, 6),
        kind: SimpleLightKind::Directional(Vec3::new(0, -1, 0)),
        attenuation: LightAttenuation { constant: 4, linear: 5, quadratic: 6 },
    };
    let positional = SimpleLight {
        color: Vec4::new(1, 2, 3, 4),
        kind: SimpleLightKind::Positional(Vec3::new(10, 20, 30)),
        attenuation: LightAttenuation { constant: 1, linear: 1, quadratic: 1 },
    };
    let d = SimpleLightRaw::from_light(&directional);
    assert_eq!(d.position_or_direction, Vec3::new(0, -1, 0));
    assert_eq!(d.positional, 0);
    assert_eq!((d.constant, d.linear, d.quadratic), (4, 5, 6));
    let p = SimpleLightRaw::from_light(&positional);
    assert_eq!(p.position_or_direction, Vec3::new(10, 20, 30));
    assert_eq!(p.positional, 1);

    let mut r = WgpuRenderer::new(640, 480);
    r.add_simple_light(directional);
    r.add_simple_light(positional);
    r.update();
    assert_eq!(r.simple_lights_buffer.len(), 2);
    assert_eq!(r.simple_lights_buffer[0].positional, 0);
    assert_eq!(r.simple_lights_buffer[1].positional, 1);
}
