use finger_paint_wgpu::math::{Mat3, Mat4, Vec3};
use finger_paint_wgpu::transform::{InstanceRaw, Transform};

fn mat4_rows(m: &Mat4) -> [[i64; 4]; 4] {
    [
        [m.m00, m.m01, m.m02, m.m03],
        [m.m10, m.m11, m.m12, m.m13],
        [m.m20, m.m21, m.m22, m.m23],
        [m.m30, m.m31, m.m32, m.m33],
    ]
}

#[test]
fn identity_transform_composes_to_identity_matrix() {
    let t = Transform::new();
    let m = t.to_matrix();
    assert_eq!(
        mat4_rows(&m),
        [[1, 0, 0, 0], [0, 1, 0, 0], [0, 0, 1, 0], [0, 0, 0, 1]]
    );
    assert_eq!(m.apply_point(Vec3::new(7, -2, 9)), Vec3::new(7, -2, 9));
}

#[test]
fn pure_translation_matrix_adds_position() {
    let mut t = Transform::new();
    t.position = Vec3::new(5, -3, 2);
    let m = t.to_matrix();
    assert_eq!(
        mat4_rows(&m),
        [[1, 0, 0, 5], [0, 1, 0, -3], [0, 0, 1, 2], [0, 0, 0, 1]]
    );
    assert_eq!(m.apply_point(Vec3::new(1, 2, 3)), Vec3::new(6, -1, 5));
}

#[test]
fn pure_scale_matrix_multiplies_componentwise() {
    let mut t = Transform::new();
    t.scale = Vec3::new(2, 3, 4);
    let m = t.to_matrix();
    assert_eq!(
        mat4_rows(&m),
        [[2, 0, 0, 0], [0, 3, 0, 0], [0, 0, 4, 0], [0, 0, 0, 1]]
    );
    assert_eq!(m.apply_point(Vec3::new(1, 1, 1)), Vec3::new(2, 3, 4));
}

#[test]
fn rotation_scale_translation_compose_in_order() {
    // Rotation swapping x and y, scale (2, 3, 5), position (10, 20, 30):
    // the point p maps to position + R * (scale compwise* p).
    let t = Transform {
        position: Vec3::new(10, 20, 30),
        rotation: Mat3 { m00: 0, m01: 1, m02: 0, m10: 1, m11: 0, m12: 0, m20: 0, m21: 0, m22: 1 },
        scale: Vec3::new(2, 3, 5),
    };
    let m = t.to_matrix();
    assert_eq!(
        mat4_rows(&m),
        [[0, 3, 0, 10], [2, 0, 0, 20], [0, 0, 5, 30], [0, 0, 0, 1]]
    );
    let p = Vec3::new(1, 1, 1);
    // scale compwise* p = (2, 3, 5); rotated = (3, 2, 5); translated:
    assert_eq!(m.apply_point(p), Vec3::new(13, 22, 35));
}

#[test]
fn transform_product_combines_components() {
    let a = Transform {
        position: Vec3::new(1, 2, 3),
        rotation: Mat3 { m00: 0, m01: 1, m02: 0, m10: 1, m11: 0, m12: 0, m20: 0, m21: 0, m22: 1 },
        scale: Vec3::new(2, 2, 2),
    };
    let b = Transform {
        position: Vec3::new(10, 0, -1),
        rotation: Mat3 { m00: 1, m01: 0, m02: 0, m10: 0, m11: 0, m12: 1, m20: 0, m21: 1, m22: 0 },
        scale: Vec3::new(3, 1, 1),
    };
    let c = a.mul(b);
    assert_eq!(c.position, Vec3::new(11, 2, 2));
    assert_eq!(c.scale, Vec3::new(6, 2, 2));
    // Row 0 of a.rotation is (0,1,0): picks row 1 of b.rotation, and so on.
    assert_eq!(
        c.rotation,
        Mat3 { m00: 0, m01: 0, m02: 1, m10: 1, m11: 0, m12: 0, m20: 0, m21: 1, m22: 0 }
    );
}

#[test]
fn instance_raw_holds_composed_matrix() {
    let mut t = Transform::new();
    t.position = Vec3::new(4, 5, 6);
    t.scale = Vec3::new(2, 1, 1);
    let raw = InstanceRaw::from_transform(&t);
    assert_eq!(
        mat4_rows(&raw.mat),
        [[2, 0, 0, 4], [0, 1, 0, 5], [0, 0, 1, 6], [0, 0, 0, 1]]
    );
}
