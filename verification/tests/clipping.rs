use graphics_engine::matrix::{
    dist_point_plane, line_plane_intersection, triangle_clip_plane, Vector2, Vector3,
};
use graphics_engine::mesh::Triangle;
use graphics_engine::{FX_ONE, NEAR};

fn tri(v0: Vector3, v1: Vector3, v2: Vector3) -> Triangle {
    Triangle {
        v0,
        v1,
        v2,
        intensity: 200 * FX_ONE,
        t0: Vector2::new(0, 0),
        t1: Vector2::new(FX_ONE, 0),
        t2: Vector2::new(FX_ONE, FX_ONE),
    }
}

fn near_plane() -> (Vector3, Vector3) {
    (Vector3::forward(), Vector3::new(0, 0, NEAR))
}

#[test]
fn fully_inside_triangle_is_unchanged() {
    let (n, p) = near_plane();
    let t = tri(
        Vector3::new(0, 0, FX_ONE),
        Vector3::new(FX_ONE, 0, 2 * FX_ONE),
        Vector3::new(0, FX_ONE, 3 * FX_ONE),
    );
    let mut out: Vec<Triangle> = Vec::new();
    let count = triangle_clip_plane(&n, &p, &t, &mut out);
    assert_eq!(count, 1);
    assert_eq!(out.len(), 1);
    assert_eq!(out[0], t);
}

#[test]
fn fully_outside_triangle_is_dropped() {
    let (n, p) = near_plane();
    let t = tri(
        Vector3::new(0, 0, -FX_ONE),
        Vector3::new(FX_ONE, 0, -2 * FX_ONE),
        Vector3::new(0, FX_ONE, 0),
    );
    let mut out: Vec<Triangle> = Vec::new();
    let count = triangle_clip_plane(&n, &p, &t, &mut out);
    assert_eq!(count, 0);
    assert_eq!(out.len(), 0);
}

#[test]
fn one_vertex_inside_yields_one_triangle_on_the_plane() {
    let (n, p) = near_plane();
    let inside = Vector3::new(0, 0, 2 * FX_ONE);
    let t = tri(inside, Vector3::new(FX_ONE, 0, -FX_ONE), Vector3::new(0, FX_ONE, -FX_ONE));
    let mut out: Vec<Triangle> = Vec::new();
    let count = triangle_clip_plane(&n, &p, &t, &mut out);
    assert_eq!(count, 1);
    assert_eq!(out.len(), 1);
    assert_eq!(out[0].v0, inside);
    // the two new corners lie on the near plane within fixed-point rounding
    for v in [out[0].v1, out[0].v2] {
        let d = dist_point_plane(&v, &n, &p);
        assert!(d.abs() <= 4, "distance {} off the plane", d);
    }
    // the kept corner keeps its texture coordinate
    assert_eq!(out[0].t0, t.t0);
}

#[test]
fn two_vertices_inside_yield_two_triangles_on_the_plane() {
    let (n, p) = near_plane();
    let in1 = Vector3::new(0, 0, 2 * FX_ONE);
    let in2 = Vector3::new(FX_ONE, 0, 3 * FX_ONE);
    let out_v = Vector3::new(0, FX_ONE, -2 * FX_ONE);
    let t = tri(in1, in2, out_v);
    let mut out: Vec<Triangle> = Vec::new();
    let count = triangle_clip_plane(&n, &p, &t, &mut out);
    assert_eq!(count, 2);
    assert_eq!(out.len(), 2);
    // the quadrilateral is tiled by the two triangles sharing a diagonal:
    // both new corners sit on the plane, and the shared corner appears in both
    assert_eq!(out[0].v0, in1);
    assert_eq!(out[0].v1, in2);
    assert_eq!(out[1].v0, in2);
    assert_eq!(out[0].v2, out[1].v2);
    for v in [out[0].v2, out[1].v1] {
        let d = dist_point_plane(&v, &n, &p);
        assert!(d.abs() <= 4, "distance {} off the plane", d);
    }
}

#[test]
fn near_clip_scenario_two_behind() {
    // a triangle with two corners behind the near plane and one in front
    // yields exactly one triangle lying entirely at z >= NEAR (within
    // fixed-point rounding of the new corners)
    let (n, p) = near_plane();
    let t = tri(
        Vector3::new(0, 0, FX_ONE),
        Vector3::new(FX_ONE, FX_ONE, -FX_ONE),
        Vector3::new(-FX_ONE, FX_ONE, -FX_ONE),
    );
    let mut out: Vec<Triangle> = Vec::new();
    let count = triangle_clip_plane(&n, &p, &t, &mut out);
    assert_eq!(count, 1);
    assert_eq!(out.len(), 1);
    for v in [out[0].v0, out[0].v1, out[0].v2] {
        assert!(v.z >= NEAR - 4, "z {} in front of the near plane", v.z);
    }
}

#[test]
fn intersection_parameter_is_exact_at_midpoint() {
    // the segment from z=2 to z=0 crosses z=1 at t = 1/2
    let n = Vector3::forward();
    let p = Vector3::new(0, 0, FX_ONE);
    let (hit, t) = line_plane_intersection(
        &n,
        &p,
        &Vector3::new(0, 0, 2 * FX_ONE),
        &Vector3::new(0, 0, 0),
    );
    assert_eq!(t, FX_ONE / 2);
    assert_eq!(hit.z, FX_ONE);
}
