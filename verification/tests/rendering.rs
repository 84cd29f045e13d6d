use graphics_engine::camera::Camera;
use graphics_engine::matrix::{mult_vec_mat, projection_matrix, Vector2, Vector3};
use graphics_engine::mesh::{face_visible, Mesh, Triangle};
use graphics_engine::raster::{draw_textured_triangle, rgba, Image};
use graphics_engine::fixed::fx_div;
use graphics_engine::{FAR, FOV, FX_ONE, NEAR};

const DEPTH_FAR: i64 = i64::MAX;

fn fresh_buffers(w: usize, h: usize) -> (Image, Vec<i64>) {
    (Image::gen_image_color(w, h, 0), vec![DEPTH_FAR; w * h])
}

#[test]
fn projection_matrix_expected_entries() {
    let m = projection_matrix(FX_ONE, FOV, NEAR, FAR);
    // w' = z convention
    assert_eq!(m.m23, FX_ONE);
    assert_eq!(m.m03, 0);
    assert_eq!(m.m13, 0);
    assert_eq!(m.m33, 0);
    // q = far / (far - near), depth offset -q * near
    assert_eq!(m.m22, 65601);
    assert_eq!(m.m32, -6559);
    // f = cot(45 degrees) in fixed point, two bits above 1
    assert_eq!(m.m11, 65538);
    assert_eq!(m.m00, 65538);
}

#[test]
fn near_plane_depth_round_trip() {
    // a point on the view axis at the near distance keeps its depth in the
    // homogeneous w, and the reciprocal weight round-trips to exactly NEAR
    let m = projection_matrix(FX_ONE, FOV, NEAR, FAR);
    let p = mult_vec_mat(&Vector3::new(0, 0, NEAR), &m);
    assert_eq!(p.w, NEAR);
    let inv_w = fx_div(FX_ONE, p.w);
    assert_eq!(inv_w, 655420);
    assert_eq!(fx_div(FX_ONE, inv_w), NEAR);
}

#[test]
fn backface_culling_flips_with_winding() {
    let v1 = Vector3::new(0, 0, 0);
    let v2 = Vector3::new(FX_ONE, 0, 0);
    let v3 = Vector3::new(0, FX_ONE, 0);
    let camera = Vector3::new(0, 0, -5 * FX_ONE);
    // counterclockwise winding faces +z, away from this camera
    assert!(!face_visible(&v1, &v2, &v3, &camera));
    assert!(face_visible(&v1, &v3, &v2, &camera));
    // an edge-on face is culled under either winding
    let e1 = Vector3::new(0, 0, 0);
    let e2 = Vector3::new(0, FX_ONE, 0);
    let e3 = Vector3::new(0, 0, FX_ONE);
    let cam_on_plane = Vector3::new(0, -3 * FX_ONE, 0);
    assert!(!face_visible(&e1, &e2, &e3, &cam_on_plane));
    assert!(!face_visible(&e1, &e3, &e2, &cam_on_plane));
}

fn draw_centered_cube(image: &mut Image, depth: &mut Vec<i64>) {
    let mesh = Mesh::cube();
    let mut camera = Camera::new();
    camera.position = Vector3::new(0, 0, -5 * FX_ONE);
    let view = camera.return_view_mat();
    let proj = projection_matrix(FX_ONE, FOV, NEAR, FAR);
    let light = Vector3::new(0, 0, -FX_ONE);
    let half = FX_ONE / 2;
    mesh.draw(
        100 * FX_ONE,
        100 * FX_ONE,
        &Vector3::new(0, 0, 0),
        &Vector3::new(-half, -half, -half),
        &view,
        &camera.position,
        &light,
        &proj,
        image,
        &None,
        depth,
    );
}

#[test]
fn cube_scenario_silhouette_and_background() {
    let (mut image, mut depth) = fresh_buffers(100, 100);
    draw_centered_cube(&mut image, &mut depth);
    // the camera looks head-on at the front face: its center is painted
    // with full lighting (the face normal is opposite the light direction)
    let center = image.get_pixel(50, 50);
    assert_eq!(center, rgba(255, 255, 255, 255));
    // every pixel outside the cube's projected silhouette keeps the
    // cleared background color and the cleared depth
    for y in 0..100usize {
        for x in 0..100usize {
            let inside = (40..=60).contains(&x) && (40..=60).contains(&y);
            if !inside {
                assert_eq!(image.get_pixel(x, y), 0, "pixel ({}, {}) painted", x, y);
                assert_eq!(depth[y * 100 + x], DEPTH_FAR);
            }
        }
    }
    // the silhouette itself spans roughly 11 pixels around the center
    assert_ne!(image.get_pixel(46, 46), 0);
    assert_ne!(image.get_pixel(54, 54), 0);
}

#[test]
fn cube_visible_face_count_head_on() {
    // from (0, 0, -5) looking toward +z at the centered axis-aligned cube,
    // the strict cull test keeps exactly the two triangles of the front
    // face: the four side faces are edge-on (nonnegative cull scalar) and
    // the back face looks away
    let mesh = Mesh::cube();
    let camera = Vector3::new(0, 0, -5 * FX_ONE);
    let half = FX_ONE / 2;
    let mut visible = 0;
    for f in &mesh.faces {
        let shift = |v: Vector3| Vector3::new(v.x - half, v.y - half, v.z - half);
        let v1 = shift(mesh.vertices[f.i0]);
        let v2 = shift(mesh.vertices[f.i1]);
        let v3 = shift(mesh.vertices[f.i2]);
        if face_visible(&v1, &v2, &v3, &camera) {
            visible += 1;
        }
    }
    assert_eq!(visible, 2);
}

#[test]
fn depth_test_idempotence() {
    // rendering the same opaque scene twice into freshly cleared buffers
    // produces bit-identical color and depth output
    let (mut image1, mut depth1) = fresh_buffers(100, 100);
    draw_centered_cube(&mut image1, &mut depth1);
    let (mut image2, mut depth2) = fresh_buffers(100, 100);
    draw_centered_cube(&mut image2, &mut depth2);
    assert_eq!(image1.pixels, image2.pixels);
    assert_eq!(depth1, depth2);
}

#[test]
fn textured_quad_samples_quadrants_without_seams() {
    let red = rgba(255, 0, 0, 255);
    let green = rgba(0, 255, 0, 255);
    let blue = rgba(0, 0, 255, 255);
    let yellow = rgba(255, 255, 0, 255);
    let mut texture = Image::gen_image_color(2, 2, 0);
    texture.set_pixel(0, 0, red);
    texture.set_pixel(1, 0, green);
    texture.set_pixel(0, 1, blue);
    texture.set_pixel(1, 1, yellow);
    let texture = Some(texture);

    let (mut image, mut depth) = fresh_buffers(100, 100);
    let px = |v: i64| v * FX_ONE;
    // two screen-space triangles sharing the diagonal of the quad
    // [10, 90] x [10, 90], with UVs (0,0), (1,0), (1,1), (0,1)
    let t1 = Triangle {
        v0: Vector3::new(px(10), px(10), 0),
        v1: Vector3::new(px(90), px(10), 0),
        v2: Vector3::new(px(10), px(90), 0),
        intensity: 255 * FX_ONE,
        t0: Vector2::new(0, 0),
        t1: Vector2::new(FX_ONE, 0),
        t2: Vector2::new(0, FX_ONE),
    };
    let t2 = Triangle {
        v0: Vector3::new(px(90), px(10), 0),
        v1: Vector3::new(px(90), px(90), 0),
        v2: Vector3::new(px(10), px(90), 0),
        intensity: 255 * FX_ONE,
        t0: Vector2::new(FX_ONE, 0),
        t1: Vector2::new(FX_ONE, FX_ONE),
        t2: Vector2::new(0, FX_ONE),
    };
    draw_textured_triangle(&t1, &mut image, &texture, &mut depth);
    draw_textured_triangle(&t2, &mut image, &texture, &mut depth);

    // each quadrant's center samples that quadrant's texel
    assert_eq!(image.get_pixel(25, 25), red);
    assert_eq!(image.get_pixel(75, 25), green);
    assert_eq!(image.get_pixel(25, 75), blue);
    assert_eq!(image.get_pixel(75, 75), yellow);
    // no seam: every pixel strictly inside the quad is painted
    for y in 12..88usize {
        for x in 12..88usize {
            assert_ne!(image.get_pixel(x, y), 0, "hole at ({}, {})", x, y);
        }
    }
    // nothing outside the quad is painted
    assert_eq!(image.get_pixel(5, 50), 0);
    assert_eq!(image.get_pixel(50, 95), 0);
}

#[test]
fn camera_view_matrix_translates_points() {
    // a level camera at the origin produces a view transform that fixes
    // points in front of it on the axis
    let camera = Camera::new();
    let view = camera.return_view_mat();
    let p = mult_vec_mat(&Vector3::new(0, 0, 3 * FX_ONE), &view);
    assert_eq!((p.x, p.y), (0, 0));
    assert!((p.z - 3 * FX_ONE).abs() <= 8);
    // direction and right follow the yaw
    let d = camera.direction();
    assert_eq!((d.x, d.y, d.z), (0, 0, FX_ONE));
    let r = camera.right();
    assert_eq!((r.x, r.y, r.z), (FX_ONE, 0, 0));
}
