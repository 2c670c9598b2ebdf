use finger_paint_wgpu::canvas::Canvas;
use finger_paint_wgpu::color_mesh::{ColorMeshInstance, ColorVertex, Lighting};
use finger_paint_wgpu::lines::{Line, LineVertex};
use finger_paint_wgpu::math::{Vec2, Vec3, Vec4};
use finger_paint_wgpu::meshes::put_in_first_slot;
use finger_paint_wgpu::model::{Material, ModelMesh, ModelVertex};
use finger_paint_wgpu::texture::Texture;
use finger_paint_wgpu::transform::Transform;
use finger_paint_wgpu::uv_mesh::UvVertex;
use finger_paint_wgpu::WgpuRenderer;

fn color_vertex() -> ColorVertex {
    ColorVertex::new(Vec3::new(0, 0, 0), Vec3::new(0, 1, 0), Vec4::new(1, 0, 0, 1))
}

fn instance() -> ColorMeshInstance {
    ColorMeshInstance {
        transform: Transform::new(),
        lighting: Lighting { specular_strength: 1, specular_spread: 2, diffuse_strength: 3 },
    }
}

fn small_texture() -> Texture {
    Texture::new(1, 1, vec![1, 2, 3, 4])
}

#[test]
fn first_fit_fills_tombstones_before_growing() {
    let mut v: Vec<Option<i32>> = vec![Some(10), None, Some(30), None];
    assert_eq!(put_in_first_slot(&mut v, 20), 1);
    assert_eq!(put_in_first_slot(&mut v, 40), 3);
    assert_eq!(put_in_first_slot(&mut v, 50), 4);
    assert_eq!(v, vec![Some(10), Some(20), Some(30), Some(40), Some(50)]);
}

#[test]
fn instance_edits_only_reach_the_buffer_on_update() {
    let mut r = WgpuRenderer::new(640, 480);
    let h = r.load_color_mesh(vec![color_vertex()], None);
    assert_eq!(h.index, 0);

    r.color_mesh_instances(&h).push(instance());
    r.color_mesh_instances(&h).push(instance());
    {
        let m = r.color_meshes[0].as_ref().unwrap();
        assert_eq!(m.instances.len(), 2);
        assert_eq!(m.instances_in_buffer(), 0);
        assert!(m.is_empty());
    }

    r.update_color_mesh(&h);
    {
        let m = r.color_meshes[0].as_ref().unwrap();
        assert_eq!(m.instances_in_buffer(), 2);
        assert!(!m.is_empty());
    }

    r.color_mesh_instances(&h).pop();
    {
        let m = r.color_meshes[0].as_ref().unwrap();
        assert_eq!(m.instances.len(), 1);
        assert_eq!(m.instances_in_buffer(), 2);
    }
    r.update_color_mesh(&h);
    assert_eq!(r.color_meshes[0].as_ref().unwrap().instances_in_buffer(), 1);
}

#[test]
fn removed_mesh_slot_is_reused_first_fit() {
    let mut r = WgpuRenderer::new(640, 480);
    let a = r.load_color_mesh(vec![color_vertex()], None);
    let b = r.load_color_mesh(vec![color_vertex(), color_vertex()], Some(vec![0, 1, 0]));
    assert_eq!((a.index, b.index), (0, 1));
    r.remove_color_mesh(&a);
    assert!(r.color_meshes[0].is_none());
    let c = r.load_color_mesh(vec![color_vertex()], None);
    assert_eq!(c.index, 0);
}

#[test]
fn color_mesh_counts_follow_geometry() {
    let mut r = WgpuRenderer::new(640, 480);
    let h = r.load_color_mesh(
        vec![color_vertex(), color_vertex(), color_vertex()],
        Some(vec![0, 1, 2, 2, 1, 0]),
    );
    let m = r.color_meshes[h.index].as_ref().unwrap();
    assert_eq!(m.vertex_count(), 3);
    assert_eq!(m.index_count(), 6);
}

#[test]
fn uv_mesh_flush_and_texture_rewrite() {
    let mut r = WgpuRenderer::new(640, 480);
    let v = UvVertex::new(Vec3::new(0, 0, 0), Vec3::new(0, 1, 0), Vec2::new(0, 0));
    let h = r.load_uv_mesh(vec![v], Some(vec![0]), small_texture());

    r.uv_mesh_instances(&h).push(Transform::new());
    assert_eq!(r.uv_meshes[0].as_ref().unwrap().instances_in_buffer(), 0);
    r.update_uv_mesh(&h);
    assert_eq!(r.uv_meshes[0].as_ref().unwrap().instances_in_buffer(), 1);

    // Same-size write: data replaced, allocated size kept.
    r.write_raw_texture_to_uv_mesh(&h, (1, 1), &[9, 9, 9, 9]);
    {
        let t = &r.uv_meshes[0].as_ref().unwrap().diffuse_texture;
        assert_eq!((t.width, t.height), (1, 1));
        assert_eq!(t.data, vec![9, 9, 9, 9]);
    }
    // Larger write: the texture is reallocated at the new size.
    r.write_raw_texture_to_uv_mesh(&h, (2, 1), &[1, 1, 1, 1, 2, 2, 2, 2]);
    {
        let t = &r.uv_meshes[0].as_ref().unwrap().diffuse_texture;
        assert_eq!((t.width, t.height), (2, 1));
        assert_eq!(t.data.len(), 8);
    }
}

#[test]
fn texture_write_raw_reports_growth() {
    let mut t = small_texture();
    assert!(!t.write_raw((1, 1), &[5, 5, 5, 5]));
    assert!(t.write_raw((1, 2), &[1, 2, 3, 4, 5, 6, 7, 8]));
    assert_eq!((t.width, t.height), (1, 2));
    // A smaller write fits the allocation and leaves the size alone.
    assert!(!t.write_raw((1, 1), &[7, 7, 7, 7]));
    assert_eq!((t.width, t.height), (1, 2));
    assert_eq!(t.data, vec![7, 7, 7, 7]);
}

#[test]
fn model_store_flushes_like_the_others() {
    let mut r = WgpuRenderer::new(640, 480);
    let vertex = ModelVertex::new(
        Vec3::new(0, 0, 0),
        Vec3::new(0, 1, 0),
        Vec2::new(0, 0),
        Vec3::new(1, 0, 0),
        Vec3::new(0, 0, 1),
    );
    let mesh = ModelMesh::new(vec![vertex], vec![0, 0, 0], 0);
    let material = Material::from_textures(small_texture(), small_texture());
    let h = r.load_model(vec![mesh], vec![material]);
    assert_eq!(h.index, 0);

    r.model_instances(&h).push(Transform::new());
    assert_eq!(r.models[0].as_ref().unwrap().instances_in_buffer(), 0);
    r.update_model(&h);
    assert_eq!(r.models[0].as_ref().unwrap().instances_in_buffer(), 1);
    r.remove_model(h);
    assert!(r.models[0].is_none());
}

#[test]
fn line_buffer_flushes_on_renderer_update() {
    let mut r = WgpuRenderer::new(640, 480);
    let p1 = LineVertex::new(Vec3::new(0, 0, 0), Vec4::new(1, 1, 1, 1));
    let p2 = LineVertex::new(Vec3::new(1, 1, 1), Vec4::new(1, 1, 1, 1));
    r.lines().push(Line::new(p1, p2));
    r.lines().push(Line::new(p2, p1));
    assert_eq!(r.lines.number_of_vertices(), 0);
    r.update();
    assert_eq!(r.lines.number_of_vertices(), 4);
}

#[test]
fn canvas_pixels_land_at_row_major_offsets() {
    let mut c = Canvas::new(4, 3);
    assert_eq!(c.size(), (4, 3));
    assert_eq!(c.raw_data().len(), 48);
    c.write_pixel(2, 1, [10, 20, 30, 40]);
    let i = ((1 * 4 + 2) * 4) as usize;
    assert_eq!(&c.raw_data()[i..i + 4], &[10, 20, 30, 40]);
    assert_eq!(c.raw_data()[0], 0);
}

#[test]
fn canvas_clear_paints_every_pixel() {
    let mut c = Canvas::new(2, 2);
    c.clear([1, 2, 3, 4]);
    assert_eq!(c.raw_data(), &[1, 2, 3, 4, 1, 2, 3, 4, 1, 2, 3, 4, 1, 2, 3, 4]);
}

#[test]
fn canvas_resize_keeps_byte_prefix() {
    let mut c = Canvas::new(2, 1);
    c.clear([7, 7, 7, 7]);
    c.resize(3, 1);
    assert_eq!(c.size(), (3, 1));
    assert_eq!(c.raw_data(), &[7, 7, 7, 7, 7, 7, 7, 7, 0, 0, 0, 0]);
    c.resize(1, 1);
    assert_eq!(c.raw_data(), &[7, 7, 7, 7]);
}

#[test]
fn put_in_first_slot_grows_an_empty_store() {
    let mut v: Vec<Option<u8>> = Vec::new();
    assert_eq!(put_in_first_slot(&mut v, 1), 0);
    assert_eq!(v, vec![Some(1)]);
}

#[test]
fn zero_sized_canvas_has_no_bytes() {
    let mut c = Canvas::new(0, 5);
    assert_eq!(c.raw_data().len(), 0);
    c.clear([1, 2, 3, 4]);
    assert_eq!(c.raw_data().len(), 0);
}
