use graphics_engine::camera::{Camera, InputState};
use graphics_engine::matrix::{projection_matrix, Vector2, Vector3};
use graphics_engine::mesh::{Mesh, Triangle};
use graphics_engine::raster::{draw_textured_triangle, rgba, Image};
use graphics_engine::{FAR, FOV, FX_ONE, NEAR};

const DEPTH_FAR: i64 = i64::MAX;

#[test]
fn empty_mesh_draws_nothing() {
    let mesh = Mesh { vertices: Vec::new(), faces: Vec::new() };
    let mut image = Image::gen_image_color(16, 16, 7);
    let mut depth: Vec<i64> = vec![DEPTH_FAR; 256];
    let camera = Camera::new();
    let view = camera.return_view_mat();
    let proj = projection_matrix(FX_ONE, FOV, NEAR, FAR);
    mesh.draw(
        16 * FX_ONE,
        16 * FX_ONE,
        &Vector3::new(0, 0, 0),
        &Vector3::new(0, 0, 0),
        &view,
        &camera.position,
        &Vector3::new(0, 0, -FX_ONE),
        &proj,
        &mut image,
        &None,
        &mut depth,
    );
    assert!(image.pixels.iter().all(|p| *p == 7));
    assert!(depth.iter().all(|d| *d == DEPTH_FAR));
}

#[test]
fn degenerate_flat_triangle_paints_no_rows() {
    // all three corners on one pixel row: both halves have zero height
    let mut image = Image::gen_image_color(32, 32, 0);
    let mut depth: Vec<i64> = vec![DEPTH_FAR; 32 * 32];
    let t = Triangle {
        v0: Vector3::new(2 * FX_ONE, 5 * FX_ONE, 0),
        v1: Vector3::new(20 * FX_ONE, 5 * FX_ONE, 0),
        v2: Vector3::new(9 * FX_ONE, 5 * FX_ONE, 0),
        intensity: 255 * FX_ONE,
        t0: Vector2::new(0, 0),
        t1: Vector2::new(FX_ONE, 0),
        t2: Vector2::new(FX_ONE, FX_ONE),
    };
    draw_textured_triangle(&t, &mut image, &None, &mut depth);
    assert!(image.pixels.iter().all(|p| *p == 0));
}

#[test]
fn offscreen_triangle_is_skipped_by_bounds_checks() {
    let mut image = Image::gen_image_color(16, 16, 0);
    let mut depth: Vec<i64> = vec![DEPTH_FAR; 256];
    let t = Triangle {
        v0: Vector3::new(-50 * FX_ONE, -40 * FX_ONE, 0),
        v1: Vector3::new(-10 * FX_ONE, -40 * FX_ONE, 0),
        v2: Vector3::new(-30 * FX_ONE, -20 * FX_ONE, 0),
        intensity: 255 * FX_ONE,
        t0: Vector2::new(0, 0),
        t1: Vector2::new(FX_ONE, 0),
        t2: Vector2::new(FX_ONE, FX_ONE),
    };
    draw_textured_triangle(&t, &mut image, &None, &mut depth);
    assert!(image.pixels.iter().all(|p| *p == 0));
    assert!(depth.iter().all(|d| *d == DEPTH_FAR));
}

#[test]
fn depth_test_keeps_the_nearer_write_and_ties_keep_the_first() {
    let mut image = Image::gen_image_color(16, 16, 0);
    let mut depth: Vec<i64> = vec![DEPTH_FAR; 256];
    let tri_at = |w: i64, intensity: i64| Triangle {
        v0: Vector3::new(0, 0, 0),
        v1: Vector3::new(15 * FX_ONE, 0, 0),
        v2: Vector3::new(0, 15 * FX_ONE, 0),
        intensity,
        t0: Vector2 { u: 0, v: 0, w },
        t1: Vector2 { u: 0, v: 0, w },
        t2: Vector2 { u: 0, v: 0, w },
    };
    // smaller reciprocal weight wins (the inverted convention)
    draw_textured_triangle(&tri_at(5 * FX_ONE, 100 * FX_ONE), &mut image, &None, &mut depth);
    draw_textured_triangle(&tri_at(2 * FX_ONE, 200 * FX_ONE), &mut image, &None, &mut depth);
    assert_eq!(image.get_pixel(2, 2), rgba(200, 200, 200, 255));
    assert_eq!(depth[2 * 16 + 2], 2 * FX_ONE);
    // an equal weight loses the strict test: the first writer stays
    draw_textured_triangle(&tri_at(2 * FX_ONE, 50 * FX_ONE), &mut image, &None, &mut depth);
    assert_eq!(image.get_pixel(2, 2), rgba(200, 200, 200, 255));
}

#[test]
fn intensity_is_clamped_into_a_channel_byte() {
    let mut image = Image::gen_image_color(8, 8, 0);
    let mut depth: Vec<i64> = vec![DEPTH_FAR; 64];
    let t = Triangle {
        v0: Vector3::new(0, 0, 0),
        v1: Vector3::new(7 * FX_ONE, 0, 0),
        v2: Vector3::new(0, 7 * FX_ONE, 0),
        intensity: 1000 * FX_ONE,
        t0: Vector2::new(0, 0),
        t1: Vector2::new(0, 0),
        t2: Vector2::new(0, 0),
    };
    draw_textured_triangle(&t, &mut image, &None, &mut depth);
    assert_eq!(image.get_pixel(1, 1), rgba(255, 255, 255, 255));
}

#[test]
fn camera_input_moves_and_turns() {
    let mut camera = Camera::new();
    let mut keys = InputState {
        arrow_up: false,
        arrow_down: false,
        arrow_left: false,
        arrow_right: false,
        key_w: true,
        key_s: false,
        key_a: false,
        key_d: false,
        key_space: false,
        key_shift: false,
    };
    // one second forward at speed 15 moves 15 units along +z
    camera.handle_user_input(&keys, FX_ONE);
    assert_eq!(
        (camera.position.x, camera.position.y, camera.position.z),
        (0, 0, 15 * FX_ONE),
    );
    // turning right for one second adds 1.5 radians of yaw
    keys.key_w = false;
    keys.arrow_right = true;
    camera.handle_user_input(&keys, FX_ONE);
    assert_eq!(camera.rotation_y, 3 * FX_ONE / 2);
    // strafing with space rises along the camera's up
    keys.arrow_right = false;
    keys.key_space = true;
    let y_before = camera.position.y;
    camera.handle_user_input(&keys, FX_ONE);
    assert!(camera.position.y > y_before);
}

#[test]
fn cube_mesh_has_expected_shape() {
    let mesh = Mesh::cube();
    assert_eq!(mesh.vertices.len(), 8);
    assert_eq!(mesh.faces.len(), 12);
    assert_eq!(
        (mesh.vertices[4].x, mesh.vertices[4].y, mesh.vertices[4].z, mesh.vertices[4].w),
        (FX_ONE, FX_ONE, FX_ONE, FX_ONE),
    );
    let n = mesh.vertices.len();
    assert!(mesh.faces.iter().all(|f| f.i0 < n && f.i1 < n && f.i2 < n));
}

#[test]
fn image_pixels_round_trip() {
    let mut image = Image::gen_image_color(4, 3, 9);
    assert_eq!(image.width(), 4);
    assert_eq!(image.height(), 3);
    assert_eq!(image.get_pixel(3, 2), 9);
    image.set_pixel(1, 2, 0xAABBCCDD);
    assert_eq!(image.get_pixel(1, 2), 0xAABBCCDD);
    assert_eq!(image.get_pixel(0, 2), 9);
    assert_eq!(rgba(0xAA, 0xBB, 0xCC, 0xDD), 0xAABBCCDD);
}
