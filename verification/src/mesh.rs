//! Geometry types and the per-frame pipeline driver: model transform,
//! backface culling, a single directional lighting term, view transform,
//! near-plane clipping, perspective projection, screen-edge clipping, and
//! rasterization into the caller's buffers.
use vstd::prelude::*;

use crate::fixed::{
    fx_add, fx_add_s, fx_div_s, fx_from_int, fx_from_int_s, fx_idiv, fx_idiv_s, fx_mul, fx_mul_s,
    FX_ONE,
};
use crate::matrix::{
    clip_results_s, cross_product, cross_product_s, dot_product, dot_product_s, mat_multiply,
    mat_multiply_s, mult_vec_mat, mult_vec_mat_s, rotate_x, rotate_x_s, rotate_y, rotate_y_s,
    rotate_z, rotate_z_s, translate, translate_s, triangle_clip_plane, vec2_div, vec2_div_s,
    vec_div, vec_div_s, vec_normalize_s, vec_sub, vec_sub_s, Mat4x4, Vector2, Vector3,
};
use crate::raster::{draw_textured_triangle, raster_tri_s, Image};

verus! {

/// A vertex is a homogeneous point.
pub type Vertex = Vector3;

/// A pipeline triangle: three vertices, three texture coordinates (one per
/// corner), and a flat lighting intensity. Each pipeline stage produces a
/// fresh value; none mutates its input.
#[derive(Clone, Copy, Debug, PartialEq, Eq, Structural)]
pub struct Triangle {
    pub v0: Vertex,
    pub v1: Vertex,
    pub v2: Vertex,
    pub intensity: i64,
    pub t0: Vector2,
    pub t1: Vector2,
    pub t2: Vector2,
}

impl Triangle {
    /// Assemble a triangle from its corners.
    pub fn new(
        v0: Vertex,
        v1: Vertex,
        v2: Vertex,
        intensity: i64,
        t0: Vector2,
        t1: Vector2,
        t2: Vector2,
    ) -> (r: Triangle)
        ensures
            r == (Triangle { v0, v1, v2, intensity, t0, t1, t2 }),
    {
        Triangle { v0, v1, v2, intensity, t0, t1, t2 }
    }
}

/// An indexed face: three indices into a mesh's vertex pool and the texture
/// coordinate of each corner.
#[derive(Clone, Copy, Debug, PartialEq, Eq, Structural)]
pub struct Face {
    pub i0: usize,
    pub i1: usize,
    pub i2: usize,
    pub t0: Vector2,
    pub t1: Vector2,
    pub t2: Vector2,
}

impl Face {
    /// Assemble a face from its indices and texture coordinates.
    pub fn new(i0: usize, i1: usize, i2: usize, t0: Vector2, t1: Vector2, t2: Vector2) -> (r: Face)
        ensures
            r == (Face { i0, i1, i2, t0, t1, t2 }),
    {
        Face { i0, i1, i2, t0, t1, t2 }
    }
}

/// A mesh: a vertex pool shared by index across a face list. Built once,
/// read-only afterwards.
pub struct Mesh {
    pub vertices: Vec<Vertex>,
    pub faces: Vec<Face>,
}

/// The signed cull scalar of a face: the dot product of the face's unit
/// normal (`cross(v2 - v1, v3 - v1)`, normalized) with the ray from the
/// camera to its first corner.
pub open spec fn face_dot_s(v1: Vertex, v2: Vertex, v3: Vertex, camera: Vector3) -> i64 {
    let normal = vec_normalize_s(cross_product_s(vec_sub_s(v2, v1), vec_sub_s(v3, v1)));
    dot_product_s(normal, vec_sub_s(v1, camera))
}

/// Whether a face survives backface culling: its normal faces the camera
/// (strictly negative cull scalar; an edge-on face is culled).
pub open spec fn visible_s(v1: Vertex, v2: Vertex, v3: Vertex, camera: Vector3) -> bool {
    face_dot_s(v1, v2, v3, camera) < 0
}

/// The backface-culling test: true when the face's winding makes its normal
/// point toward the camera.
pub fn face_visible(v1: &Vertex, v2: &Vertex, v3: &Vertex, camera: &Vector3) -> (r: bool)
    ensures
        r == visible_s(*v1, *v2, *v3, *camera),
{
    let normal = cross_product(&vec_sub(v2, v1), &vec_sub(v3, v1)).normalize();
    let ray = vec_sub(v1, camera);
    dot_product(&normal, &ray) < 0
}

/// The lighting intensity of a visible face: the unit normal dotted with
/// the light direction, scaled by 205 and offset by 50 (clamped into a
/// channel byte only at paint time).
pub open spec fn intensity_s(v1: Vertex, v2: Vertex, v3: Vertex, light: Vector3) -> i64 {
    let normal = vec_normalize_s(cross_product_s(vec_sub_s(v2, v1), vec_sub_s(v3, v1)));
    fx_add_s(fx_mul_s(dot_product_s(normal, light), fx_from_int_s(205)), fx_from_int_s(50))
}

/// The per-frame constants one `draw` call carries through its stages.
#[derive(Clone, Copy)]
pub struct DrawEnv {
    pub width: i64,
    pub height: i64,
    pub tmat: Mat4x4,
    pub view: Mat4x4,
    pub cam: Vector3,
    pub light: Vector3,
    pub proj: Mat4x4,
}

/// The composed model transform: rotation about x, then y, then z, then the
/// translation.
pub open spec fn transform_mat_s(rotation: Vector3, translation: Vector3) -> Mat4x4 {
    mat_multiply_s(
        mat_multiply_s(
            mat_multiply_s(rotate_x_s(rotation.x), rotate_y_s(rotation.y)),
            rotate_z_s(rotation.z),
        ),
        translate_s(translation.x, translation.y, translation.z),
    )
}

/// One projected corner: position through the projection matrix and divided
/// by its homogeneous `w`, texture coordinates divided by the same `w` with
/// the reciprocal `1/w` stored as their weight, and the normalized
/// coordinates scaled to pixel space by `(ndc + 1) * dimension / 2`.
pub open spec fn project_vertex_s(v: Vertex, tex: Vector2, env: DrawEnv) -> (Vertex, Vector2) {
    let pv = mult_vec_mat_s(v, env.proj);
    let t1 = vec2_div_s(tex, pv.w);
    let t2 = Vector2 { u: t1.u, v: t1.v, w: fx_div_s(FX_ONE, pv.w) };
    let ndc = vec_div_s(pv, pv.w);
    let sx = fx_idiv_s(fx_mul_s(fx_add_s(ndc.x, FX_ONE), env.width), 2);
    let sy = fx_idiv_s(fx_mul_s(fx_add_s(ndc.y, FX_ONE), env.height), 2);
    (Vector3 { x: sx, y: sy, z: ndc.z, w: ndc.w }, t2)
}

/// A whole triangle projected corner by corner.
pub open spec fn project_tri_s(t: Triangle, env: DrawEnv) -> Triangle {
    let p0 = project_vertex_s(t.v0, t.t0, env);
    let p1 = project_vertex_s(t.v1, t.t1, env);
    let p2 = project_vertex_s(t.v2, t.t2, env);
    Triangle {
        v0: p0.0,
        v1: p1.0,
        v2: p2.0,
        intensity: t.intensity,
        t0: p0.1,
        t1: p1.1,
        t2: p2.1,
    }
}

fn project_tri(t: &Triangle, env: &DrawEnv) -> (r: Triangle)
    ensures
        r == project_tri_s(*t, *env),
{
    let mut out = *t;
    let pv0 = mult_vec_mat(&t.v0, &env.proj);
    let t0a = vec2_div(&t.t0, pv0.w);
    out.t0 = Vector2 { u: t0a.u, v: t0a.v, w: crate::fixed::fx_div(FX_ONE, pv0.w) };
    let ndc0 = vec_div(&pv0, pv0.w);
    out.v0 = Vector3 {
        x: fx_idiv(fx_mul(fx_add(ndc0.x, FX_ONE), env.width), 2),
        y: fx_idiv(fx_mul(fx_add(ndc0.y, FX_ONE), env.height), 2),
        z: ndc0.z,
        w: ndc0.w,
    };
    let pv1 = mult_vec_mat(&t.v1, &env.proj);
    let t1a = vec2_div(&t.t1, pv1.w);
    out.t1 = Vector2 { u: t1a.u, v: t1a.v, w: crate::fixed::fx_div(FX_ONE, pv1.w) };
    let ndc1 = vec_div(&pv1, pv1.w);
    out.v1 = Vector3 {
        x: fx_idiv(fx_mul(fx_add(ndc1.x, FX_ONE), env.width), 2),
        y: fx_idiv(fx_mul(fx_add(ndc1.y, FX_ONE), env.height), 2),
        z: ndc1.z,
        w: ndc1.w,
    };
    let pv2 = mult_vec_mat(&t.v2, &env.proj);
    let t2a = vec2_div(&t.t2, pv2.w);
    out.t2 = Vector2 { u: t2a.u, v: t2a.v, w: crate::fixed::fx_div(FX_ONE, pv2.w) };
    let ndc2 = vec_div(&pv2, pv2.w);
    out.v2 = Vector3 {
        x: fx_idiv(fx_mul(fx_add(ndc2.x, FX_ONE), env.width), 2),
        y: fx_idiv(fx_mul(fx_add(ndc2.y, FX_ONE), env.height), 2),
        z: ndc2.z,
        w: ndc2.w,
    };
    out
}

/// Every triangle of `tris` from index `k` on, projected and appended to
/// `acc` in order.
pub open spec fn proj_list_s(acc: Seq<Triangle>, tris: Seq<Triangle>, k: int, env: DrawEnv) -> Seq<
    Triangle,
>
    decreases tris.len() - k,
{
    if k < 0 || k >= tris.len() {
        acc
    } else {
        proj_list_s(acc.push(project_tri_s(tris[k], env)), tris, k + 1, env)
    }
}

/// Every triangle of `tris` from index `k` on, clipped against the plane
/// and its 0–2 survivors appended to `acc` in order.
pub open spec fn clip_list_s(
    acc: Seq<Triangle>,
    tris: Seq<Triangle>,
    k: int,
    n: Vector3,
    p: Vector3,
) -> Seq<Triangle>
    decreases tris.len() - k,
{
    if k < 0 || k >= tris.len() {
        acc
    } else {
        clip_list_s(acc + clip_results_s(n, p, tris[k]), tris, k + 1, n, p)
    }
}

fn clip_edge_list(tris: &Vec<Triangle>, n: &Vector3, p: &Vector3) -> (out: Vec<Triangle>)
    ensures
        out@ == clip_list_s(Seq::empty(), tris@, 0, *n, *p),
{
    let mut out: Vec<Triangle> = Vec::new();
    let mut k: usize = 0;
    while k < tris.len()
        invariant
            k <= tris@.len(),
            clip_list_s(out@, tris@, k as int, *n, *p) == clip_list_s(
                Seq::empty(),
                tris@,
                0,
                *n,
                *p,
            ),
        decreases tris@.len() - k,
    {
        triangle_clip_plane(n, p, &tris[k], &mut out);
        k = k + 1;
    }
    out
}

/// The buffers after rasterizing every triangle of `tris` from index `k`
/// on, in order.
pub open spec fn raster_list_s(
    tris: Seq<Triangle>,
    k: int,
    texture: Option<Image>,
    w: int,
    h: int,
    pix: Seq<u32>,
    dep: Seq<i64>,
) -> (Seq<u32>, Seq<i64>)
    decreases tris.len() - k,
{
    if k < 0 || k >= tris.len() {
        (pix, dep)
    } else {
        let out = raster_tri_s(tris[k], texture, w, h, pix, dep);
        raster_list_s(tris, k + 1, texture, w, h, out.0, out.1)
    }
}

fn raster_list(
    tris: &Vec<Triangle>,
    texture: &Option<Image>,
    image: &mut Image,
    depth_buffer: &mut Vec<i64>,
)
    requires
        old(image).wf(),
        old(depth_buffer)@.len() == old(image).width * old(image).height,
        match *texture {
            Option::Some(img) => img.wf(),
            Option::None => true,
        },
    ensures
        final(image).wf(),
        final(image).width == old(image).width,
        final(image).height == old(image).height,
        final(depth_buffer)@.len() == old(depth_buffer)@.len(),
        (final(image).pixels@, final(depth_buffer)@) == raster_list_s(
            tris@,
            0,
            *texture,
            old(image).width as int,
            old(image).height as int,
            old(image).pixels@,
            old(depth_buffer)@,
        ),
{
    let ghost w = image.width as int;
    let ghost h = image.height as int;
    let ghost pix0 = image.pixels@;
    let ghost dep0 = depth_buffer@;
    let mut k: usize = 0;
    while k < tris.len()
        invariant
            k <= tris@.len(),
            image.wf(),
            image.width as int == w,
            image.height as int == h,
            depth_buffer@.len() == old(depth_buffer)@.len(),
            depth_buffer@.len() == image.width * image.height,
            match *texture {
                Option::Some(img) => img.wf(),
                Option::None => true,
            },
            raster_list_s(tris@, k as int, *texture, w, h, image.pixels@, depth_buffer@)
                == raster_list_s(tris@, 0, *texture, w, h, pix0, dep0),
        decreases tris@.len() - k,
    {
        draw_textured_triangle(&tris[k], image, texture, depth_buffer);
        k = k + 1;
    }
}

/// The screen-space triangles one face contributes: nothing for a culled
/// face; otherwise the lit view-space triangle clipped against the near
/// plane and each survivor projected to pixel space.
pub open spec fn face_screen_tris_s(mesh: Mesh, face: Face, env: DrawEnv) -> Seq<Triangle> {
    let v1 = mult_vec_mat_s(mesh.vertices@[face.i0 as int], env.tmat);
    let v2 = mult_vec_mat_s(mesh.vertices@[face.i1 as int], env.tmat);
    let v3 = mult_vec_mat_s(mesh.vertices@[face.i2 as int], env.tmat);
    if visible_s(v1, v2, v3, env.cam) {
        let view_tri = Triangle {
            v0: mult_vec_mat_s(v1, env.view),
            v1: mult_vec_mat_s(v2, env.view),
            v2: mult_vec_mat_s(v3, env.view),
            intensity: intensity_s(v1, v2, v3, env.light),
            t0: face.t0,
            t1: face.t1,
            t2: face.t2,
        };
        let clipped = clip_results_s(
            Vector3 { x: 0, y: 0, z: FX_ONE, w: FX_ONE },
            Vector3 { x: 0, y: 0, z: crate::NEAR, w: FX_ONE },
            view_tri,
        );
        proj_list_s(Seq::empty(), clipped, 0, env)
    } else {
        Seq::empty()
    }
}

/// The four screen-edge clip stages: top, bottom, left, right, each fed the
/// previous stage's whole output in order.
pub open spec fn screen_clip_s(tris: Seq<Triangle>, env: DrawEnv) -> Seq<Triangle> {
    let e = Seq::<Triangle>::empty();
    let up = Vector3 { x: 0, y: FX_ONE, z: 0, w: FX_ONE };
    let down = Vector3 { x: 0, y: (-FX_ONE) as i64, z: 0, w: FX_ONE };
    let right = Vector3 { x: FX_ONE, y: 0, z: 0, w: FX_ONE };
    let left = Vector3 { x: (-FX_ONE) as i64, y: 0, z: 0, w: FX_ONE };
    let origin = Vector3 { x: 0, y: 0, z: 0, w: FX_ONE };
    let bottom_pt = Vector3 { x: 0, y: env.height, z: 0, w: FX_ONE };
    let right_pt = Vector3 { x: env.width, y: 0, z: 0, w: FX_ONE };
    let c1 = clip_list_s(e, tris, 0, up, origin);
    let c2 = clip_list_s(e, c1, 0, down, bottom_pt);
    let c3 = clip_list_s(e, c2, 0, right, origin);
    clip_list_s(e, c3, 0, left, right_pt)
}

/// The buffers after face `k`: its screen triangles, screen-clipped and
/// rasterized in order.
pub open spec fn face_bufs_s(
    mesh: Mesh,
    face: Face,
    env: DrawEnv,
    texture: Option<Image>,
    w: int,
    h: int,
    pix: Seq<u32>,
    dep: Seq<i64>,
) -> (Seq<u32>, Seq<i64>) {
    let finals = screen_clip_s(face_screen_tris_s(mesh, face, env), env);
    raster_list_s(finals, 0, texture, w, h, pix, dep)
}

/// The buffers after processing the faces from index `k` on, in mesh order.
pub open spec fn draw_faces_s(
    mesh: Mesh,
    env: DrawEnv,
    texture: Option<Image>,
    w: int,
    h: int,
    pix: Seq<u32>,
    dep: Seq<i64>,
    k: int,
) -> (Seq<u32>, Seq<i64>)
    decreases mesh.faces@.len() - k,
{
    if k < 0 || k >= mesh.faces@.len() {
        (pix, dep)
    } else {
        let out = face_bufs_s(mesh, mesh.faces@[k], env, texture, w, h, pix, dep);
        draw_faces_s(mesh, env, texture, w, h, out.0, out.1, k + 1)
    }
}

/// `Mesh::draw` as a value: the color and depth buffers after one frame's
/// pipeline over every face of the mesh.
pub open spec fn mesh_draw_s(
    mesh: Mesh,
    width: i64,
    height: i64,
    rotation: Vector3,
    translation: Vector3,
    view_mat: Mat4x4,
    camera_position: Vector3,
    light_direction: Vector3,
    projection_mat: Mat4x4,
    texture: Option<Image>,
    w: int,
    h: int,
    pix: Seq<u32>,
    dep: Seq<i64>,
) -> (Seq<u32>, Seq<i64>) {
    let env = DrawEnv {
        width,
        height,
        tmat: transform_mat_s(rotation, translation),
        view: view_mat,
        cam: camera_position,
        light: light_direction,
        proj: projection_mat,
    };
    draw_faces_s(mesh, env, texture, w, h, pix, dep, 0)
}

/// The eight corners of the unit cube `[0, 1]^3`, in fixed point.
pub open spec fn cube_vertices_s() -> Seq<Vertex> {
    seq![
        Vector3 { x: 0, y: 0, z: 0, w: FX_ONE },
        Vector3 { x: 0, y: FX_ONE, z: 0, w: FX_ONE },
        Vector3 { x: FX_ONE, y: FX_ONE, z: 0, w: FX_ONE },
        Vector3 { x: FX_ONE, y: 0, z: 0, w: FX_ONE },
        Vector3 { x: FX_ONE, y: FX_ONE, z: FX_ONE, w: FX_ONE },
        Vector3 { x: FX_ONE, y: 0, z: FX_ONE, w: FX_ONE },
        Vector3 { x: 0, y: FX_ONE, z: FX_ONE, w: FX_ONE },
        Vector3 { x: 0, y: 0, z: FX_ONE, w: FX_ONE },
    ]
}

/// One cube face with the standard texture corners of its half of a quad.
pub open spec fn cube_face_s(i0: usize, i1: usize, i2: usize, second_half: bool) -> Face {
    if second_half {
        Face {
            i0,
            i1,
            i2,
            t0: Vector2 { u: 0, v: FX_ONE, w: FX_ONE },
            t1: Vector2 { u: FX_ONE, v: 0, w: FX_ONE },
            t2: Vector2 { u: FX_ONE, v: FX_ONE, w: FX_ONE },
        }
    } else {
        Face {
            i0,
            i1,
            i2,
            t0: Vector2 { u: 0, v: FX_ONE, w: FX_ONE },
            t1: Vector2 { u: 0, v: 0, w: FX_ONE },
            t2: Vector2 { u: FX_ONE, v: 0, w: FX_ONE },
        }
    }
}

fn cube_face(i0: usize, i1: usize, i2: usize, second_half: bool) -> (r: Face)
    ensures
        r == cube_face_s(i0, i1, i2, second_half),
{
    if second_half {
        Face::new(
            i0,
            i1,
            i2,
            Vector2::new(0, FX_ONE),
            Vector2::new(FX_ONE, 0),
            Vector2::new(FX_ONE, FX_ONE),
        )
    } else {
        Face::new(
            i0,
            i1,
            i2,
            Vector2::new(0, FX_ONE),
            Vector2::new(0, 0),
            Vector2::new(FX_ONE, 0),
        )
    }
}

/// The twelve faces of the unit cube: south, east, north, west, top,
/// bottom, two triangles each.
pub open spec fn cube_faces_s() -> Seq<Face> {
    seq![
        cube_face_s(0, 1, 2, false),
        cube_face_s(0, 2, 3, true),
        cube_face_s(3, 2, 4, false),
        cube_face_s(3, 4, 5, true),
        cube_face_s(5, 4, 6, false),
        cube_face_s(5, 6, 7, true),
        cube_face_s(7, 6, 1, false),
        cube_face_s(7, 1, 0, true),
        cube_face_s(1, 6, 4, false),
        cube_face_s(1, 4, 2, true),
        cube_face_s(5, 7, 0, false),
        cube_face_s(5, 0, 3, true),
    ]
}

impl Mesh {
    /// Every face's indices point into the vertex pool.
    pub open spec fn wf(&self) -> bool {
        forall|k: int|
            0 <= k < self.faces@.len() ==> (#[trigger] self.faces@[k]).i0 < self.vertices@.len()
                && self.faces@[k].i1 < self.vertices@.len() && self.faces@[k].i2
                < self.vertices@.len()
    }

    /// The procedural unit cube: eight corners and twelve faces.
    pub fn cube() -> (r: Mesh)
        ensures
            r.vertices@ == cube_vertices_s(),
            r.faces@ == cube_faces_s(),
            r.wf(),
    {
        let mut vertices: Vec<Vertex> = Vec::new();
        vertices.push(Vector3::new(0, 0, 0));
        vertices.push(Vector3::new(0, FX_ONE, 0));
        vertices.push(Vector3::new(FX_ONE, FX_ONE, 0));
        vertices.push(Vector3::new(FX_ONE, 0, 0));
        vertices.push(Vector3::new(FX_ONE, FX_ONE, FX_ONE));
        vertices.push(Vector3::new(FX_ONE, 0, FX_ONE));
        vertices.push(Vector3::new(0, FX_ONE, FX_ONE));
        vertices.push(Vector3::new(0, 0, FX_ONE));
        let mut faces: Vec<Face> = Vec::new();
        faces.push(cube_face(0, 1, 2, false));
        faces.push(cube_face(0, 2, 3, true));
        faces.push(cube_face(3, 2, 4, false));
        faces.push(cube_face(3, 4, 5, true));
        faces.push(cube_face(5, 4, 6, false));
        faces.push(cube_face(5, 6, 7, true));
        faces.push(cube_face(7, 6, 1, false));
        faces.push(cube_face(7, 1, 0, true));
        faces.push(cube_face(1, 6, 4, false));
        faces.push(cube_face(1, 4, 2, true));
        faces.push(cube_face(5, 7, 0, false));
        faces.push(cube_face(5, 0, 3, true));
        let r = Mesh { vertices, faces };
        proof {
            assert(r.vertices@ =~= cube_vertices_s());
            assert(r.faces@ =~= cube_faces_s());
        }
        r
    }

    /// Render this mesh for one frame: compose the model transform, and for
    /// each face in definition order cull, light, transform to view space,
    /// clip against the near plane, project to pixel space, clip against the
    /// four screen edges, and rasterize. The buffers afterwards are exactly
    /// `mesh_draw_s` of the buffers before; nothing else changes.
    pub fn draw(
        &self,
        width: i64,
        height: i64,
        rotation: &Vector3,
        translation: &Vector3,
        view_mat: &Mat4x4,
        camera_position: &Vector3,
        light_direction: &Vector3,
        projection_mat: &Mat4x4,
        image: &mut Image,
        texture: &Option<Image>,
        depth_buffer: &mut Vec<i64>,
    )
        requires
            self.wf(),
            old(image).wf(),
            old(depth_buffer)@.len() == old(image).width * old(image).height,
            match *texture {
                Option::Some(img) => img.wf(),
                Option::None => true,
            },
        ensures
            final(image).wf(),
            final(image).width == old(image).width,
            final(image).height == old(image).height,
            final(depth_buffer)@.len() == old(depth_buffer)@.len(),
            (final(image).pixels@, final(depth_buffer)@) == mesh_draw_s(
                *self,
                width,
                height,
                *rotation,
                *translation,
                *view_mat,
                *camera_position,
                *light_direction,
                *projection_mat,
                *texture,
                old(image).width as int,
                old(image).height as int,
                old(image).pixels@,
                old(depth_buffer)@,
            ),
    {
        let tmat: Mat4x4 = mat_multiply(
            &mat_multiply(&mat_multiply(&rotate_x(rotation.x), &rotate_y(rotation.y)), &rotate_z(
                rotation.z,
            )),
            &translate(translation.x, translation.y, translation.z),
        );
        let env = DrawEnv {
            width,
            height,
            tmat,
            view: *view_mat,
            cam: *camera_position,
            light: *light_direction,
            proj: *projection_mat,
        };
        let ghost w = image.width as int;
        let ghost h = image.height as int;
        let ghost pix0 = image.pixels@;
        let ghost dep0 = depth_buffer@;
        let mut k: usize = 0;
        while k < self.faces.len()
            invariant
                self.wf(),
                k <= self.faces@.len(),
                image.wf(),
                image.width as int == w,
                image.height as int == h,
                depth_buffer@.len() == old(depth_buffer)@.len(),
                depth_buffer@.len() == image.width * image.height,
                match *texture {
                    Option::Some(img) => img.wf(),
                    Option::None => true,
                },
                draw_faces_s(*self, env, *texture, w, h, image.pixels@, depth_buffer@, k as int)
                    == draw_faces_s(*self, env, *texture, w, h, pix0, dep0, 0),
            decreases self.faces@.len() - k,
        {
            let face: Face = self.faces[k];
            self.draw_face(&face, &env, texture, image, depth_buffer);
            k = k + 1;
        }
    }

    fn draw_face(
        &self,
        face: &Face,
        env: &DrawEnv,
        texture: &Option<Image>,
        image: &mut Image,
        depth_buffer: &mut Vec<i64>,
    )
        requires
            face.i0 < self.vertices@.len(),
            face.i1 < self.vertices@.len(),
            face.i2 < self.vertices@.len(),
            old(image).wf(),
            old(depth_buffer)@.len() == old(image).width * old(image).height,
            match *texture {
                Option::Some(img) => img.wf(),
                Option::None => true,
            },
        ensures
            final(image).wf(),
            final(image).width == old(image).width,
            final(image).height == old(image).height,
            final(depth_buffer)@.len() == old(depth_buffer)@.len(),
            (final(image).pixels@, final(depth_buffer)@) == face_bufs_s(
                *self,
                *face,
                *env,
                *texture,
                old(image).width as int,
                old(image).height as int,
                old(image).pixels@,
                old(depth_buffer)@,
            ),
    {
        let v1: Vector3 = mult_vec_mat(&self.vertices[face.i0], &env.tmat);
        let v2: Vector3 = mult_vec_mat(&self.vertices[face.i1], &env.tmat);
        let v3: Vector3 = mult_vec_mat(&self.vertices[face.i2], &env.tmat);
        if face_visible(&v1, &v2, &v3, &env.cam) {
            let normal: Vector3 = cross_product(&vec_sub(&v2, &v1), &vec_sub(&v3, &v1)).normalize();
            let intensity: i64 = fx_add(
                fx_mul(dot_product(&normal, &env.light), fx_from_int(205)),
                fx_from_int(50),
            );
            let view_tri = Triangle {
                v0: mult_vec_mat(&v1, &env.view),
                v1: mult_vec_mat(&v2, &env.view),
                v2: mult_vec_mat(&v3, &env.view),
                intensity,
                t0: face.t0,
                t1: face.t1,
                t2: face.t2,
            };
            let mut clipped: Vec<Triangle> = Vec::new();
            triangle_clip_plane(
                &Vector3::forward(),
                &Vector3::new(0, 0, crate::NEAR),
                &view_tri,
                &mut clipped,
            );
            let ghost clipped_seq = clipped@;
            let mut projected: Vec<Triangle> = Vec::new();
            let mut k: usize = 0;
            while k < clipped.len()
                invariant
                    k <= clipped@.len(),
                    clipped@ == clipped_seq,
                    proj_list_s(projected@, clipped_seq, k as int, *env) == proj_list_s(
                        Seq::empty(),
                        clipped_seq,
                        0,
                        *env,
                    ),
                decreases clipped@.len() - k,
            {
                let p: Triangle = project_tri(&clipped[k], env);
                projected.push(p);
                k = k + 1;
            }
            let c1: Vec<Triangle> = clip_edge_list(
                &projected,
                &Vector3::up(),
                &Vector3::new(0, 0, 0),
            );
            let c2: Vec<Triangle> = clip_edge_list(
                &c1,
                &Vector3::down(),
                &Vector3::new(0, env.height, 0),
            );
            let c3: Vec<Triangle> = clip_edge_list(
                &c2,
                &Vector3::right(),
                &Vector3::new(0, 0, 0),
            );
            let c4: Vec<Triangle> = clip_edge_list(
                &c3,
                &Vector3::left(),
                &Vector3::new(env.width, 0, 0),
            );
            raster_list(&c4, texture, image, depth_buffer);
        }
    }
}


/// Backface culling is symmetric: reversing a face's winding negates its
/// cull scalar exactly, so whenever the scalar is nonzero the reversed face
/// survives the visibility test if and only if the original does not (when
/// it is zero, the face is edge-on and both windings are culled).
#[verifier::rlimit(80)]
pub proof fn lemma_backface_symmetry(v1: Vertex, v2: Vertex, v3: Vertex, camera: Vector3)
    ensures
        face_dot_s(v1, v3, v2, camera) == crate::fixed::fx_neg_s(face_dot_s(v1, v2, v3, camera)),
        face_dot_s(v1, v2, v3, camera) != 0 ==> (visible_s(v1, v3, v2, camera) <==> !visible_s(
            v1,
            v2,
            v3,
            camera,
        )),
{
    let l1 = vec_sub_s(v2, v1);
    let l2 = vec_sub_s(v3, v1);
    let c = cross_product_s(l1, l2);
    let cr = cross_product_s(l2, l1);
    crate::fixed::lemma_fx_mul_comm(l2.y, l1.z);
    crate::fixed::lemma_fx_mul_comm(l2.z, l1.y);
    crate::fixed::lemma_fx_mul_comm(l2.z, l1.x);
    crate::fixed::lemma_fx_mul_comm(l2.x, l1.z);
    crate::fixed::lemma_fx_mul_comm(l2.x, l1.y);
    crate::fixed::lemma_fx_mul_comm(l2.y, l1.x);
    assert(cr.x == crate::fixed::fx_neg_s(c.x));
    assert(cr.y == crate::fixed::fx_neg_s(c.y));
    assert(cr.z == crate::fixed::fx_neg_s(c.z));
    crate::fixed::lemma_fx_mul_neg_neg(c.x, c.x);
    crate::fixed::lemma_fx_mul_neg_neg(c.y, c.y);
    crate::fixed::lemma_fx_mul_neg_neg(c.z, c.z);
    assert(crate::matrix::len_sq_s(cr) == crate::matrix::len_sq_s(c));
    let l = crate::fixed::fx_sqrt_s(crate::matrix::len_sq_s(c));
    let n = vec_normalize_s(c);
    let nr = vec_normalize_s(cr);
    if l != 0 {
        crate::fixed::lemma_fx_div_neg_left(c.x, l);
        crate::fixed::lemma_fx_div_neg_left(c.y, l);
        crate::fixed::lemma_fx_div_neg_left(c.z, l);
    }
    assert(nr.x == crate::fixed::fx_neg_s(n.x));
    assert(nr.y == crate::fixed::fx_neg_s(n.y));
    assert(nr.z == crate::fixed::fx_neg_s(n.z));
    let ray = vec_sub_s(v1, camera);
    crate::fixed::lemma_fx_mul_neg_left(n.x, ray.x);
    crate::fixed::lemma_fx_mul_neg_left(n.y, ray.y);
    crate::fixed::lemma_fx_mul_neg_left(n.z, ray.z);
    assert(dot_product_s(nr, ray) == crate::fixed::fx_neg_s(dot_product_s(n, ray)));
}

/// Rendering is deterministic: the frame is a function of the scene and
/// the starting buffers alone, so drawing the same opaque scene twice into
/// equal freshly-cleared buffers produces bit-identical color and depth
/// output.
pub proof fn lemma_draw_deterministic(
    mesh: Mesh,
    width: i64,
    height: i64,
    rotation: Vector3,
    translation: Vector3,
    view_mat: Mat4x4,
    camera_position: Vector3,
    light_direction: Vector3,
    projection_mat: Mat4x4,
    texture: Option<Image>,
    w: int,
    h: int,
    pix1: Seq<u32>,
    dep1: Seq<i64>,
    pix2: Seq<u32>,
    dep2: Seq<i64>,
)
    requires
        pix1 == pix2,
        dep1 == dep2,
    ensures
        mesh_draw_s(
            mesh,
            width,
            height,
            rotation,
            translation,
            view_mat,
            camera_position,
            light_direction,
            projection_mat,
            texture,
            w,
            h,
            pix1,
            dep1,
        ) == mesh_draw_s(
            mesh,
            width,
            height,
            rotation,
            translation,
            view_mat,
            camera_position,
            light_direction,
            projection_mat,
            texture,
            w,
            h,
            pix2,
            dep2,
        ),
{
}

} // verus!
