//! The linear-algebra kernel: homogeneous vectors, 4x4 matrices, matrix
//! builders, and the triangle clipper. All scalars are fixed point
//! (`crate::fixed`); every executable function has an exact spec twin, so a
//! caller knows the result bit for bit.
use vstd::prelude::*;

use crate::mesh::{Triangle, Vertex};

use crate::fixed::{
    fx_add, fx_add_s, fx_cos, fx_cos_s, fx_div, fx_div_s, fx_from_int, fx_from_int_s, fx_idiv,
    fx_idiv_s, fx_mul, fx_mul_s, fx_neg, fx_neg_s, fx_sin, fx_sin_s, fx_sqrt, fx_sqrt_s, fx_sub,
    fx_sub_s, FX_ONE, FX_PI,
};

verus! {

/// A texture coordinate: `u`, `v`, and a perspective weight `w` (a reciprocal
/// depth once projected — not a spatial coordinate).
#[derive(Clone, Copy, Debug, PartialEq, Eq, Structural)]
pub struct Vector2 {
    pub u: i64,
    pub v: i64,
    pub w: i64,
}

impl Vector2 {
    /// A texture coordinate with weight 1.
    pub fn new(u: i64, v: i64) -> (r: Vector2)
        ensures
            r == (Vector2 { u, v, w: FX_ONE }),
    {
        Vector2 { u, v, w: FX_ONE }
    }
}

/// `vec2_div` as a value.
pub open spec fn vec2_div_s(v1: Vector2, divisor: i64) -> Vector2 {
    Vector2 { u: fx_div_s(v1.u, divisor), v: fx_div_s(v1.v, divisor), w: FX_ONE }
}

/// Divide both texture components by a scalar; the weight resets to 1.
pub fn vec2_div(v1: &Vector2, divisor: i64) -> (r: Vector2)
    ensures
        r == vec2_div_s(*v1, divisor),
{
    Vector2::new(fx_div(v1.u, divisor), fx_div(v1.v, divisor))
}

/// A homogeneous point or direction: `w` is 1 for freshly built points and
/// only differs after a projective transform, whose perspective divide
/// brings the value back to Cartesian form.
#[derive(Clone, Copy, Debug, PartialEq, Eq, Structural)]
pub struct Vector3 {
    pub x: i64,
    pub y: i64,
    pub z: i64,
    pub w: i64,
}

impl Default for Vector3 {
    /// The zero vector (with a zero `w` as well).
    fn default() -> (r: Vector3)
        ensures
            r == (Vector3 { x: 0, y: 0, z: 0, w: 0 }),
    {
        Vector3 { x: 0, y: 0, z: 0, w: 0 }
    }
}

impl Vector3 {
    /// A point with homogeneous `w` of 1.
    pub fn new(x: i64, y: i64, z: i64) -> (r: Vector3)
        ensures
            r == (Vector3 { x, y, z, w: FX_ONE }),
    {
        Vector3 { x, y, z, w: FX_ONE }
    }

    /// Normalize to unit Euclidean length; the zero vector (whose length
    /// rounds to zero) maps to the zero point rather than to an undefined
    /// quotient.
    pub fn normalize(&self) -> (r: Vector3)
        ensures
            r == vec_normalize_s(*self),
    {
        let sq: i64 = len_sq(self);
        let l: i64 = fx_sqrt(sq);
        if l == 0 {
            Vector3::new(0, 0, 0)
        } else {
            Vector3::new(fx_div(self.x, l), fx_div(self.y, l), fx_div(self.z, l))
        }
    }

    /// The unit vector along `+y`.
    pub fn up() -> (r: Vector3)
        ensures
            r == (Vector3 { x: 0, y: FX_ONE, z: 0, w: FX_ONE }),
    {
        Vector3::new(0, FX_ONE, 0)
    }

    /// The unit vector along `-y`.
    pub fn down() -> (r: Vector3)
        ensures
            r == (Vector3 { x: 0, y: (-FX_ONE) as i64, z: 0, w: FX_ONE }),
    {
        Vector3::new(0, -FX_ONE, 0)
    }

    /// The unit vector along `-x`.
    pub fn left() -> (r: Vector3)
        ensures
            r == (Vector3 { x: (-FX_ONE) as i64, y: 0, z: 0, w: FX_ONE }),
    {
        Vector3::new(-FX_ONE, 0, 0)
    }

    /// The unit vector along `+x`.
    pub fn right() -> (r: Vector3)
        ensures
            r == (Vector3 { x: FX_ONE, y: 0, z: 0, w: FX_ONE }),
    {
        Vector3::new(FX_ONE, 0, 0)
    }

    /// The unit vector along `+z` (the view direction).
    pub fn forward() -> (r: Vector3)
        ensures
            r == (Vector3 { x: 0, y: 0, z: FX_ONE, w: FX_ONE }),
    {
        Vector3::new(0, 0, FX_ONE)
    }
}

/// Squared Euclidean length of the spatial components.
pub open spec fn len_sq_s(v: Vector3) -> i64 {
    fx_add_s(fx_add_s(fx_mul_s(v.x, v.x), fx_mul_s(v.y, v.y)), fx_mul_s(v.z, v.z))
}

/// `fx_mul_s` of a value with itself is nonnegative.
pub proof fn lemma_fx_square_nonneg(a: i64)
    ensures
        0 <= fx_mul_s(a, a),
{
    assert(0 <= a * a) by (nonlinear_arith);
    vstd::arithmetic::div_mod::lemma_div_pos_is_pos(a * a, FX_ONE as int);
}

/// Squared lengths are nonnegative.
pub proof fn lemma_len_sq_nonneg(v: Vector3)
    ensures
        0 <= len_sq_s(v),
{
    lemma_fx_square_nonneg(v.x);
    lemma_fx_square_nonneg(v.y);
    lemma_fx_square_nonneg(v.z);
}

fn len_sq(v: &Vector3) -> (r: i64)
    ensures
        r == len_sq_s(*v),
        0 <= r,
{
    proof {
        lemma_len_sq_nonneg(*v);
    }
    fx_add(fx_add(fx_mul(v.x, v.x), fx_mul(v.y, v.y)), fx_mul(v.z, v.z))
}

/// `Vector3::normalize` as a value.
pub open spec fn vec_normalize_s(v: Vector3) -> Vector3 {
    let l = fx_sqrt_s(len_sq_s(v));
    if l == 0 {
        Vector3 { x: 0, y: 0, z: 0, w: FX_ONE }
    } else {
        Vector3 { x: fx_div_s(v.x, l), y: fx_div_s(v.y, l), z: fx_div_s(v.z, l), w: FX_ONE }
    }
}

/// `vec_add` as a value.
pub open spec fn vec_add_s(v1: Vector3, v2: Vector3) -> Vector3 {
    Vector3 {
        x: fx_add_s(v1.x, v2.x),
        y: fx_add_s(v1.y, v2.y),
        z: fx_add_s(v1.z, v2.z),
        w: FX_ONE,
    }
}

/// Componentwise sum of the spatial parts.
pub fn vec_add(v1: &Vector3, v2: &Vector3) -> (r: Vector3)
    ensures
        r == vec_add_s(*v1, *v2),
{
    Vector3::new(fx_add(v1.x, v2.x), fx_add(v1.y, v2.y), fx_add(v1.z, v2.z))
}

/// `vec_sub` as a value.
pub open spec fn vec_sub_s(v1: Vector3, v2: Vector3) -> Vector3 {
    Vector3 {
        x: fx_sub_s(v1.x, v2.x),
        y: fx_sub_s(v1.y, v2.y),
        z: fx_sub_s(v1.z, v2.z),
        w: FX_ONE,
    }
}

/// Componentwise difference of the spatial parts.
pub fn vec_sub(v1: &Vector3, v2: &Vector3) -> (r: Vector3)
    ensures
        r == vec_sub_s(*v1, *v2),
{
    Vector3::new(fx_sub(v1.x, v2.x), fx_sub(v1.y, v2.y), fx_sub(v1.z, v2.z))
}

/// `vec_add_a` as a value.
pub open spec fn vec_add_a_s(v1: Vector3, a: i64) -> Vector3 {
    Vector3 {
        x: fx_add_s(v1.x, a),
        y: fx_add_s(v1.y, a),
        z: fx_add_s(v1.z, a),
        w: FX_ONE,
    }
}

/// Add a scalar to every spatial component.
pub fn vec_add_a(v1: &Vector3, a: i64) -> (r: Vector3)
    ensures
        r == vec_add_a_s(*v1, a),
{
    Vector3::new(fx_add(v1.x, a), fx_add(v1.y, a), fx_add(v1.z, a))
}

/// `vec_sub_a` as a value.
pub open spec fn vec_sub_a_s(v1: Vector3, a: i64) -> Vector3 {
    Vector3 {
        x: fx_sub_s(v1.x, a),
        y: fx_sub_s(v1.y, a),
        z: fx_sub_s(v1.z, a),
        w: FX_ONE,
    }
}

/// Subtract a scalar from every spatial component.
pub fn vec_sub_a(v1: &Vector3, a: i64) -> (r: Vector3)
    ensures
        r == vec_sub_a_s(*v1, a),
{
    Vector3::new(fx_sub(v1.x, a), fx_sub(v1.y, a), fx_sub(v1.z, a))
}

/// `vec_div` as a value.
pub open spec fn vec_div_s(v1: Vector3, divisor: i64) -> Vector3 {
    Vector3 {
        x: fx_div_s(v1.x, divisor),
        y: fx_div_s(v1.y, divisor),
        z: fx_div_s(v1.z, divisor),
        w: FX_ONE,
    }
}

/// Divide every spatial component by a scalar (the perspective divide).
pub fn vec_div(v1: &Vector3, divisor: i64) -> (r: Vector3)
    ensures
        r == vec_div_s(*v1, divisor),
{
    Vector3::new(fx_div(v1.x, divisor), fx_div(v1.y, divisor), fx_div(v1.z, divisor))
}

/// `vec_mul` as a value.
pub open spec fn vec_mul_s(v1: Vector3, mult: i64) -> Vector3 {
    Vector3 {
        x: fx_mul_s(v1.x, mult),
        y: fx_mul_s(v1.y, mult),
        z: fx_mul_s(v1.z, mult),
        w: FX_ONE,
    }
}

/// Scale every spatial component by a scalar.
pub fn vec_mul(v1: &Vector3, mult: i64) -> (r: Vector3)
    ensures
        r == vec_mul_s(*v1, mult),
{
    Vector3::new(fx_mul(v1.x, mult), fx_mul(v1.y, mult), fx_mul(v1.z, mult))
}

/// `cross_product` as a value.
pub open spec fn cross_product_s(v1: Vector3, v2: Vector3) -> Vector3 {
    Vector3 {
        x: fx_sub_s(fx_mul_s(v1.y, v2.z), fx_mul_s(v1.z, v2.y)),
        y: fx_sub_s(fx_mul_s(v1.z, v2.x), fx_mul_s(v1.x, v2.z)),
        z: fx_sub_s(fx_mul_s(v1.x, v2.y), fx_mul_s(v1.y, v2.x)),
        w: FX_ONE,
    }
}

/// The cross product of the spatial parts.
pub fn cross_product(vec1: &Vector3, vec2: &Vector3) -> (r: Vector3)
    ensures
        r == cross_product_s(*vec1, *vec2),
{
    Vector3::new(
        fx_sub(fx_mul(vec1.y, vec2.z), fx_mul(vec1.z, vec2.y)),
        fx_sub(fx_mul(vec1.z, vec2.x), fx_mul(vec1.x, vec2.z)),
        fx_sub(fx_mul(vec1.x, vec2.y), fx_mul(vec1.y, vec2.x)),
    )
}

/// `dot_product` as a value.
pub open spec fn dot_product_s(v1: Vector3, v2: Vector3) -> i64 {
    fx_add_s(fx_add_s(fx_mul_s(v1.x, v2.x), fx_mul_s(v1.y, v2.y)), fx_mul_s(v1.z, v2.z))
}

/// The dot product of the spatial parts.
pub fn dot_product(vec1: &Vector3, vec2: &Vector3) -> (r: i64)
    ensures
        r == dot_product_s(*vec1, *vec2),
{
    fx_add(fx_add(fx_mul(vec1.x, vec2.x), fx_mul(vec1.y, vec2.y)), fx_mul(vec1.z, vec2.z))
}

/// A row-major 4x4 matrix of fixed-point scalars, `mRC` the entry of row `R`
/// and column `C`. Vectors multiply on the left (row vector times matrix),
/// so composition reads left to right.
#[derive(Clone, Copy, Debug, PartialEq, Eq, Structural)]
pub struct Mat4x4 {
    pub m00: i64,
    pub m01: i64,
    pub m02: i64,
    pub m03: i64,
    pub m10: i64,
    pub m11: i64,
    pub m12: i64,
    pub m13: i64,
    pub m20: i64,
    pub m21: i64,
    pub m22: i64,
    pub m23: i64,
    pub m30: i64,
    pub m31: i64,
    pub m32: i64,
    pub m33: i64,
}

/// The all-zero matrix.
pub open spec fn mat_zero_s() -> Mat4x4 {
    Mat4x4 {
        m00: 0,
        m01: 0,
        m02: 0,
        m03: 0,
        m10: 0,
        m11: 0,
        m12: 0,
        m13: 0,
        m20: 0,
        m21: 0,
        m22: 0,
        m23: 0,
        m30: 0,
        m31: 0,
        m32: 0,
        m33: 0,
    }
}

impl Mat4x4 {
    /// The all-zero matrix, the starting point of every builder.
    pub fn zero() -> (r: Mat4x4)
        ensures
            r == mat_zero_s(),
    {
        Mat4x4 {
            m00: 0,
            m01: 0,
            m02: 0,
            m03: 0,
            m10: 0,
            m11: 0,
            m12: 0,
            m13: 0,
            m20: 0,
            m21: 0,
            m22: 0,
            m23: 0,
            m30: 0,
            m31: 0,
            m32: 0,
            m33: 0,
        }
    }
}

/// Four-term fixed-point inner product, summed left to right.
pub open spec fn dot4_s(a0: i64, a1: i64, a2: i64, a3: i64, b0: i64, b1: i64, b2: i64, b3: i64) -> i64 {
    fx_add_s(
        fx_add_s(fx_add_s(fx_mul_s(a0, b0), fx_mul_s(a1, b1)), fx_mul_s(a2, b2)),
        fx_mul_s(a3, b3),
    )
}

fn dot4(a0: i64, a1: i64, a2: i64, a3: i64, b0: i64, b1: i64, b2: i64, b3: i64) -> (r: i64)
    ensures
        r == dot4_s(a0, a1, a2, a3, b0, b1, b2, b3),
{
    fx_add(fx_add(fx_add(fx_mul(a0, b0), fx_mul(a1, b1)), fx_mul(a2, b2)), fx_mul(a3, b3))
}

/// `mat_multiply` as a value: entry `(i, j)` is the inner product of row `i`
/// of the first factor with column `j` of the second.
pub open spec fn mat_multiply_s(a: Mat4x4, b: Mat4x4) -> Mat4x4 {
    Mat4x4 {
        m00: dot4_s(a.m00, a.m01, a.m02, a.m03, b.m00, b.m10, b.m20, b.m30),
        m01: dot4_s(a.m00, a.m01, a.m02, a.m03, b.m01, b.m11, b.m21, b.m31),
        m02: dot4_s(a.m00, a.m01, a.m02, a.m03, b.m02, b.m12, b.m22, b.m32),
        m03: dot4_s(a.m00, a.m01, a.m02, a.m03, b.m03, b.m13, b.m23, b.m33),
        m10: dot4_s(a.m10, a.m11, a.m12, a.m13, b.m00, b.m10, b.m20, b.m30),
        m11: dot4_s(a.m10, a.m11, a.m12, a.m13, b.m01, b.m11, b.m21, b.m31),
        m12: dot4_s(a.m10, a.m11, a.m12, a.m13, b.m02, b.m12, b.m22, b.m32),
        m13: dot4_s(a.m10, a.m11, a.m12, a.m13, b.m03, b.m13, b.m23, b.m33),
        m20: dot4_s(a.m20, a.m21, a.m22, a.m23, b.m00, b.m10, b.m20, b.m30),
        m21: dot4_s(a.m20, a.m21, a.m22, a.m23, b.m01, b.m11, b.m21, b.m31),
        m22: dot4_s(a.m20, a.m21, a.m22, a.m23, b.m02, b.m12, b.m22, b.m32),
        m23: dot4_s(a.m20, a.m21, a.m22, a.m23, b.m03, b.m13, b.m23, b.m33),
        m30: dot4_s(a.m30, a.m31, a.m32, a.m33, b.m00, b.m10, b.m20, b.m30),
        m31: dot4_s(a.m30, a.m31, a.m32, a.m33, b.m01, b.m11, b.m21, b.m31),
        m32: dot4_s(a.m30, a.m31, a.m32, a.m33, b.m02, b.m12, b.m22, b.m32),
        m33: dot4_s(a.m30, a.m31, a.m32, a.m33, b.m03, b.m13, b.m23, b.m33),
    }
}

/// Matrix product; associative in exact arithmetic, and the composition
/// order (rotation, then translation, then view, then projection) is part of
/// every caller's contract.
pub fn mat_multiply(mat1: &Mat4x4, mat2: &Mat4x4) -> (r: Mat4x4)
    ensures
        r == mat_multiply_s(*mat1, *mat2),
{
    let a = *mat1;
    let b = *mat2;
    Mat4x4 {
        m00: dot4(a.m00, a.m01, a.m02, a.m03, b.m00, b.m10, b.m20, b.m30),
        m01: dot4(a.m00, a.m01, a.m02, a.m03, b.m01, b.m11, b.m21, b.m31),
        m02: dot4(a.m00, a.m01, a.m02, a.m03, b.m02, b.m12, b.m22, b.m32),
        m03: dot4(a.m00, a.m01, a.m02, a.m03, b.m03, b.m13, b.m23, b.m33),
        m10: dot4(a.m10, a.m11, a.m12, a.m13, b.m00, b.m10, b.m20, b.m30),
        m11: dot4(a.m10, a.m11, a.m12, a.m13, b.m01, b.m11, b.m21, b.m31),
        m12: dot4(a.m10, a.m11, a.m12, a.m13, b.m02, b.m12, b.m22, b.m32),
        m13: dot4(a.m10, a.m11, a.m12, a.m13, b.m03, b.m13, b.m23, b.m33),
        m20: dot4(a.m20, a.m21, a.m22, a.m23, b.m00, b.m10, b.m20, b.m30),
        m21: dot4(a.m20, a.m21, a.m22, a.m23, b.m01, b.m11, b.m21, b.m31),
        m22: dot4(a.m20, a.m21, a.m22, a.m23, b.m02, b.m12, b.m22, b.m32),
        m23: dot4(a.m20, a.m21, a.m22, a.m23, b.m03, b.m13, b.m23, b.m33),
        m30: dot4(a.m30, a.m31, a.m32, a.m33, b.m00, b.m10, b.m20, b.m30),
        m31: dot4(a.m30, a.m31, a.m32, a.m33, b.m01, b.m11, b.m21, b.m31),
        m32: dot4(a.m30, a.m31, a.m32, a.m33, b.m02, b.m12, b.m22, b.m32),
        m33: dot4(a.m30, a.m31, a.m32, a.m33, b.m03, b.m13, b.m23, b.m33),
    }
}

/// `mult_vec_mat` as a value: the row vector `(x, y, z, w)` times the matrix.
pub open spec fn mult_vec_mat_s(v: Vector3, m: Mat4x4) -> Vector3 {
    Vector3 {
        x: dot4_s(v.x, v.y, v.z, v.w, m.m00, m.m10, m.m20, m.m30),
        y: dot4_s(v.x, v.y, v.z, v.w, m.m01, m.m11, m.m21, m.m31),
        z: dot4_s(v.x, v.y, v.z, v.w, m.m02, m.m12, m.m22, m.m32),
        w: dot4_s(v.x, v.y, v.z, v.w, m.m03, m.m13, m.m23, m.m33),
    }
}

/// Transform a homogeneous vector by a matrix (row vector times matrix).
pub fn mult_vec_mat(vec: &Vector3, mat: &Mat4x4) -> (r: Vector3)
    ensures
        r == mult_vec_mat_s(*vec, *mat),
{
    let v = *vec;
    let m = *mat;
    Vector3 {
        x: dot4(v.x, v.y, v.z, v.w, m.m00, m.m10, m.m20, m.m30),
        y: dot4(v.x, v.y, v.z, v.w, m.m01, m.m11, m.m21, m.m31),
        z: dot4(v.x, v.y, v.z, v.w, m.m02, m.m12, m.m22, m.m32),
        w: dot4(v.x, v.y, v.z, v.w, m.m03, m.m13, m.m23, m.m33),
    }
}

/// `projection_matrix` as a value.
pub open spec fn projection_matrix_s(aspect_ratio: i64, fov: i64, near: i64, far: i64) -> Mat4x4 {
    let half = fx_idiv_s(fx_mul_s(fx_div_s(fov, fx_from_int_s(180)), FX_PI), 2);
    let f = fx_div_s(fx_cos_s(half), fx_sin_s(half));
    let q = fx_div_s(far, fx_sub_s(far, near));
    Mat4x4 {
        m00: fx_div_s(f, aspect_ratio),
        m11: f,
        m22: q,
        m23: FX_ONE,
        m32: fx_neg_s(fx_mul_s(q, near)),
        ..mat_zero_s()
    }
}

/// A perspective projection from aspect ratio, vertical field of view in
/// fixed-point degrees, and near/far distances.
///
/// Convention: the homogeneous `w` of a projected point is exactly the
/// view-space depth `z` (so the perspective divide divides by depth), and
/// the projected depth runs from 0 at `z == near` toward `q` at the far
/// plane, where `q == far / (far - near)`.
pub fn projection_matrix(aspect_ratio: i64, fov: i64, near: i64, far: i64) -> (r: Mat4x4)
    ensures
        r == projection_matrix_s(aspect_ratio, fov, near, far),
{
    let half: i64 = fx_idiv(fx_mul(fx_div(fov, fx_from_int(180)), FX_PI), 2);
    let f: i64 = fx_div(fx_cos(half), fx_sin(half));
    let q: i64 = fx_div(far, fx_sub(far, near));
    let mut mat = Mat4x4::zero();
    mat.m00 = fx_div(f, aspect_ratio);
    mat.m11 = f;
    mat.m22 = q;
    mat.m23 = FX_ONE;
    mat.m32 = fx_neg(fx_mul(q, near));
    mat
}

/// `rotate_x` as a value.
pub open spec fn rotate_x_s(a: i64) -> Mat4x4 {
    Mat4x4 {
        m00: FX_ONE,
        m11: fx_cos_s(a),
        m12: fx_neg_s(fx_sin_s(a)),
        m21: fx_sin_s(a),
        m22: fx_cos_s(a),
        m33: FX_ONE,
        ..mat_zero_s()
    }
}

/// Rotation about the x axis by a fixed-point angle in radians.
pub fn rotate_x(a: i64) -> (r: Mat4x4)
    ensures
        r == rotate_x_s(a),
{
    let c: i64 = fx_cos(a);
    let s: i64 = fx_sin(a);
    let mut mat = Mat4x4::zero();
    mat.m00 = FX_ONE;
    mat.m11 = c;
    mat.m12 = fx_neg(s);
    mat.m21 = s;
    mat.m22 = c;
    mat.m33 = FX_ONE;
    mat
}

/// `rotate_y` as a value.
pub open spec fn rotate_y_s(a: i64) -> Mat4x4 {
    Mat4x4 {
        m00: fx_cos_s(a),
        m02: fx_sin_s(a),
        m11: FX_ONE,
        m20: fx_neg_s(fx_sin_s(a)),
        m22: fx_cos_s(a),
        m33: FX_ONE,
        ..mat_zero_s()
    }
}

/// Rotation about the y axis by a fixed-point angle in radians.
pub fn rotate_y(a: i64) -> (r: Mat4x4)
    ensures
        r == rotate_y_s(a),
{
    let c: i64 = fx_cos(a);
    let s: i64 = fx_sin(a);
    let mut mat = Mat4x4::zero();
    mat.m00 = c;
    mat.m02 = s;
    mat.m11 = FX_ONE;
    mat.m20 = fx_neg(s);
    mat.m22 = c;
    mat.m33 = FX_ONE;
    mat
}

/// `rotate_z` as a value.
pub open spec fn rotate_z_s(a: i64) -> Mat4x4 {
    Mat4x4 {
        m00: fx_cos_s(a),
        m01: fx_neg_s(fx_sin_s(a)),
        m10: fx_sin_s(a),
        m11: fx_cos_s(a),
        m22: FX_ONE,
        m33: FX_ONE,
        ..mat_zero_s()
    }
}

/// Rotation about the z axis by a fixed-point angle in radians.
pub fn rotate_z(a: i64) -> (r: Mat4x4)
    ensures
        r == rotate_z_s(a),
{
    let c: i64 = fx_cos(a);
    let s: i64 = fx_sin(a);
    let mut mat = Mat4x4::zero();
    mat.m00 = c;
    mat.m01 = fx_neg(s);
    mat.m10 = s;
    mat.m11 = c;
    mat.m22 = FX_ONE;
    mat.m33 = FX_ONE;
    mat
}

/// `translate` as a value.
pub open spec fn translate_s(x: i64, y: i64, z: i64) -> Mat4x4 {
    Mat4x4 {
        m00: FX_ONE,
        m11: FX_ONE,
        m22: FX_ONE,
        m33: FX_ONE,
        m30: x,
        m31: y,
        m32: z,
        ..mat_zero_s()
    }
}

/// Translation by `(x, y, z)` (applied to row vectors through the last row).
pub fn translate(x: i64, y: i64, z: i64) -> (r: Mat4x4)
    ensures
        r == translate_s(x, y, z),
{
    let mut mat = Mat4x4::zero();
    mat.m00 = FX_ONE;
    mat.m11 = FX_ONE;
    mat.m22 = FX_ONE;
    mat.m33 = FX_ONE;
    mat.m30 = x;
    mat.m31 = y;
    mat.m32 = z;
    mat
}

/// `point_at_mat` as a value.
pub open spec fn point_at_mat_s(pos: Vector3, target: Vector3, up: Vector3) -> Mat4x4 {
    let forward = vec_normalize_s(vec_sub_s(target, pos));
    let a = vec_mul_s(forward, dot_product_s(up, forward));
    let new_up = vec_normalize_s(vec_sub_s(up, a));
    let new_right = cross_product_s(new_up, forward);
    Mat4x4 {
        m00: new_right.x,
        m01: new_right.y,
        m02: new_right.z,
        m03: dot_product_s(pos, new_right),
        m10: new_up.x,
        m11: new_up.y,
        m12: new_up.z,
        m13: dot_product_s(pos, new_up),
        m20: forward.x,
        m21: forward.y,
        m22: forward.z,
        m23: dot_product_s(pos, forward),
        m30: pos.x,
        m31: pos.y,
        m32: pos.z,
        m33: FX_ONE,
    }
}

/// The camera's frame as a matrix: a Gram–Schmidt-orthogonalized basis
/// (forward toward `target`, `up` with its forward component removed, right
/// as their cross product) with the camera position, for `quick_inverse_mat`
/// to invert into a view matrix.
pub fn point_at_mat(pos: &Vector3, target: &Vector3, up: &Vector3) -> (r: Mat4x4)
    ensures
        r == point_at_mat_s(*pos, *target, *up),
{
    let forward: Vector3 = vec_sub(target, pos).normalize();

    let a: Vector3 = vec_mul(&forward, dot_product(up, &forward));
    let new_up: Vector3 = vec_sub(up, &a).normalize();

    let new_right: Vector3 = cross_product(&new_up, &forward);

    let translation_x: i64 = dot_product(pos, &new_right);
    let translation_y: i64 = dot_product(pos, &new_up);
    let translation_z: i64 = dot_product(pos, &forward);

    Mat4x4 {
        m00: new_right.x,
        m01: new_right.y,
        m02: new_right.z,
        m03: translation_x,
        m10: new_up.x,
        m11: new_up.y,
        m12: new_up.z,
        m13: translation_y,
        m20: forward.x,
        m21: forward.y,
        m22: forward.z,
        m23: translation_z,
        m30: pos.x,
        m31: pos.y,
        m32: pos.z,
        m33: FX_ONE,
    }
}

/// `quick_inverse_mat` as a value.
pub open spec fn quick_inverse_mat_s(m: Mat4x4) -> Mat4x4 {
    Mat4x4 {
        m00: m.m00,
        m01: m.m10,
        m02: m.m20,
        m03: 0,
        m10: m.m01,
        m11: m.m11,
        m12: m.m21,
        m13: 0,
        m20: m.m02,
        m21: m.m12,
        m22: m.m22,
        m23: 0,
        m30: fx_neg_s(m.m03),
        m31: fx_neg_s(m.m13),
        m32: fx_neg_s(m.m23),
        m33: FX_ONE,
    }
}

/// Invert a `point_at_mat` frame cheaply: transpose the rotation block and
/// negate the translation. Valid only because that frame is orthonormal by
/// construction.
pub fn quick_inverse_mat(mat: &Mat4x4) -> (r: Mat4x4)
    ensures
        r == quick_inverse_mat_s(*mat),
{
    let m = *mat;
    Mat4x4 {
        m00: m.m00,
        m01: m.m10,
        m02: m.m20,
        m03: 0,
        m10: m.m01,
        m11: m.m11,
        m12: m.m21,
        m13: 0,
        m20: m.m02,
        m21: m.m12,
        m22: m.m22,
        m23: 0,
        m30: fx_neg(m.m03),
        m31: fx_neg(m.m13),
        m32: fx_neg(m.m23),
        m33: FX_ONE,
    }
}

/// `dist_point_plane` as a value: the signed distance scaled by the normal's
/// length; positive means the point lies on the side the normal points to.
pub open spec fn dist_point_plane_s(point: Vector3, plane_normal: Vector3, plane_point: Vector3) -> i64 {
    fx_sub_s(dot_product_s(plane_normal, point), dot_product_s(plane_normal, plane_point))
}

/// Signed distance of a point to a plane, scaled by the normal's length.
pub fn dist_point_plane(point: &Vertex, plane_normal: &Vector3, plane_point: &Vector3) -> (r: i64)
    ensures
        r == dist_point_plane_s(*point, *plane_normal, *plane_point),
{
    fx_sub(dot_product(plane_normal, point), dot_product(plane_normal, plane_point))
}

/// `line_plane_intersection` as a value: the point and the parameter `t` of
/// the segment `start + t * (end - start)` where it meets the plane.
pub open spec fn line_plane_intersection_s(
    plane_normal: Vector3,
    plane_point: Vector3,
    line_start: Vector3,
    line_end: Vector3,
) -> (Vector3, i64) {
    let n = vec_normalize_s(plane_normal);
    let d = dot_product_s(n, plane_point);
    let dir = vec_sub_s(line_end, line_start);
    let t = fx_div_s(fx_sub_s(d, dot_product_s(line_start, n)), dot_product_s(n, dir));
    (vec_add_s(line_start, vec_mul_s(dir, t)), t)
}

/// Where the segment from `line_start` to `line_end` meets the plane. A
/// segment parallel to its plane has a zero denominator, which the scalar
/// division saturates; such a call cannot arise from a vertex pair correctly
/// classified as inside/outside in exact arithmetic.
pub fn line_plane_intersection(
    plane_normal: &Vector3,
    plane_point: &Vector3,
    line_start: &Vector3,
    line_end: &Vector3,
) -> (r: (Vector3, i64))
    ensures
        r == line_plane_intersection_s(*plane_normal, *plane_point, *line_start, *line_end),
{
    let n: Vector3 = plane_normal.normalize();
    let d: i64 = dot_product(&n, plane_point);
    let dir: Vector3 = vec_sub(line_end, line_start);
    let t: i64 = fx_div(fx_sub(d, dot_product(line_start, &n)), dot_product(&n, &dir));
    (vec_add(line_start, &vec_mul(&dir, t)), t)
}

/// Texture-coordinate interpolation at a plane crossing: each component is
/// `t * (outside - inside) + inside`, the same parameter `t` as the spatial
/// intersection.
pub open spec fn interp_tex_s(t: i64, inside: Vector2, outside: Vector2) -> Vector2 {
    Vector2 {
        u: fx_add_s(fx_mul_s(t, fx_sub_s(outside.u, inside.u)), inside.u),
        v: fx_add_s(fx_mul_s(t, fx_sub_s(outside.v, inside.v)), inside.v),
        w: fx_add_s(fx_mul_s(t, fx_sub_s(outside.w, inside.w)), inside.w),
    }
}

fn interp_tex(t: i64, inside: &Vector2, outside: &Vector2) -> (r: Vector2)
    ensures
        r == interp_tex_s(t, *inside, *outside),
{
    Vector2 {
        u: fx_add(fx_mul(t, fx_sub(outside.u, inside.u)), inside.u),
        v: fx_add(fx_mul(t, fx_sub(outside.v, inside.v)), inside.v),
        w: fx_add(fx_mul(t, fx_sub(outside.w, inside.w)), inside.w),
    }
}

/// The single output triangle when only `inside` survives the plane: the
/// inside corner plus the two plane crossings toward the outside corners.
pub open spec fn clip_one_inside_s(
    n: Vector3,
    plane_point: Vector3,
    inside: Vertex,
    out1: Vertex,
    out2: Vertex,
    tex_in: Vector2,
    tex_out1: Vector2,
    tex_out2: Vector2,
    intensity: i64,
) -> Triangle {
    let r1 = line_plane_intersection_s(n, plane_point, inside, out1);
    let r2 = line_plane_intersection_s(n, plane_point, inside, out2);
    Triangle {
        v0: inside,
        v1: r1.0,
        v2: r2.0,
        intensity,
        t0: tex_in,
        t1: interp_tex_s(r1.1, tex_in, tex_out1),
        t2: interp_tex_s(r2.1, tex_in, tex_out2),
    }
}

/// The two output triangles when `in1` and `in2` survive the plane: together
/// they tile the inside quadrilateral, sharing the crossing from `in1`
/// toward the outside corner as a diagonal.
pub open spec fn clip_two_inside_s(
    n: Vector3,
    plane_point: Vector3,
    in1: Vertex,
    in2: Vertex,
    out: Vertex,
    tex_in1: Vector2,
    tex_in2: Vector2,
    tex_out: Vector2,
    intensity: i64,
) -> (Triangle, Triangle) {
    let r1 = line_plane_intersection_s(n, plane_point, in1, out);
    let r2 = line_plane_intersection_s(n, plane_point, in2, out);
    let shared = interp_tex_s(r1.1, tex_in1, tex_out);
    (
        Triangle {
            v0: in1,
            v1: in2,
            v2: r1.0,
            intensity,
            t0: tex_in1,
            t1: tex_in2,
            t2: shared,
        },
        Triangle {
            v0: in2,
            v1: r2.0,
            v2: r1.0,
            intensity,
            t0: tex_in2,
            t1: interp_tex_s(r2.1, tex_in2, tex_out),
            t2: shared,
        },
    )
}

/// `triangle_clip_plane` as a value: the sequence of 0, 1 or 2 triangles
/// that remain of `tri` on the inside (nonnegative-distance side) of the
/// plane, classified by the normalized normal.
pub open spec fn clip_results_s(plane_normal: Vector3, plane_point: Vector3, tri: Triangle) -> Seq<
    Triangle,
> {
    let n = vec_normalize_s(plane_normal);
    let in0 = dist_point_plane_s(tri.v0, n, plane_point) >= 0;
    let in1 = dist_point_plane_s(tri.v1, n, plane_point) >= 0;
    let in2 = dist_point_plane_s(tri.v2, n, plane_point) >= 0;
    if in0 && in1 && in2 {
        seq![tri]
    } else if !in0 && !in1 && !in2 {
        Seq::empty()
    } else if in0 && !in1 && !in2 {
        seq![
            clip_one_inside_s(n, plane_point, tri.v0, tri.v1, tri.v2, tri.t0, tri.t1, tri.t2, tri.intensity),
        ]
    } else if !in0 && in1 && !in2 {
        seq![
            clip_one_inside_s(n, plane_point, tri.v1, tri.v0, tri.v2, tri.t1, tri.t0, tri.t2, tri.intensity),
        ]
    } else if !in0 && !in1 && in2 {
        seq![
            clip_one_inside_s(n, plane_point, tri.v2, tri.v0, tri.v1, tri.t2, tri.t0, tri.t1, tri.intensity),
        ]
    } else if in0 && in1 && !in2 {
        let pair = clip_two_inside_s(
            n,
            plane_point,
            tri.v0,
            tri.v1,
            tri.v2,
            tri.t0,
            tri.t1,
            tri.t2,
            tri.intensity,
        );
        seq![pair.0, pair.1]
    } else if in0 && !in1 && in2 {
        let pair = clip_two_inside_s(
            n,
            plane_point,
            tri.v0,
            tri.v2,
            tri.v1,
            tri.t0,
            tri.t2,
            tri.t1,
            tri.intensity,
        );
        seq![pair.0, pair.1]
    } else {
        let pair = clip_two_inside_s(
            n,
            plane_point,
            tri.v1,
            tri.v2,
            tri.v0,
            tri.t1,
            tri.t2,
            tri.t0,
            tri.intensity,
        );
        seq![pair.0, pair.1]
    }
}

/// Clip one triangle against one plane (generalized Sutherland–Hodgman):
/// classify each corner by signed distance to the plane, keep the triangle,
/// drop it, or cut it into one or two triangles whose new corners are the
/// plane crossings, with texture coordinates interpolated by the same
/// parameter. Appends the surviving triangles to `out_triangles` and
/// returns how many were appended.
pub fn triangle_clip_plane(
    plane_normal: &Vector3,
    plane_point: &Vector3,
    triangle: &Triangle,
    out_triangles: &mut Vec<Triangle>,
) -> (count: usize)
    ensures
        final(out_triangles)@ == old(out_triangles)@ + clip_results_s(
            *plane_normal,
            *plane_point,
            *triangle,
        ),
        count == clip_results_s(*plane_normal, *plane_point, *triangle).len(),
{
    let n: Vector3 = plane_normal.normalize();
    let tri = *triangle;
    let in0: bool = dist_point_plane(&tri.v0, &n, plane_point) >= 0;
    let in1: bool = dist_point_plane(&tri.v1, &n, plane_point) >= 0;
    let in2: bool = dist_point_plane(&tri.v2, &n, plane_point) >= 0;
    let ghost res = clip_results_s(*plane_normal, *plane_point, *triangle);
    if in0 && in1 && in2 {
        out_triangles.push(tri);
        proof {
            assert(out_triangles@ =~= old(out_triangles)@ + res);
        }
        1
    } else if !in0 && !in1 && !in2 {
        proof {
            assert(out_triangles@ =~= old(out_triangles)@ + res);
        }
        0
    } else if in0 && !in1 && !in2 {
        let t = clip_one_inside(&n, plane_point, &tri.v0, &tri.v1, &tri.v2, &tri.t0, &tri.t1, &tri.t2, tri.intensity);
        out_triangles.push(t);
        proof {
            assert(out_triangles@ =~= old(out_triangles)@ + res);
        }
        1
    } else if !in0 && in1 && !in2 {
        let t = clip_one_inside(&n, plane_point, &tri.v1, &tri.v0, &tri.v2, &tri.t1, &tri.t0, &tri.t2, tri.intensity);
        out_triangles.push(t);
        proof {
            assert(out_triangles@ =~= old(out_triangles)@ + res);
        }
        1
    } else if !in0 && !in1 && in2 {
        let t = clip_one_inside(&n, plane_point, &tri.v2, &tri.v0, &tri.v1, &tri.t2, &tri.t0, &tri.t1, tri.intensity);
        out_triangles.push(t);
        proof {
            assert(out_triangles@ =~= old(out_triangles)@ + res);
        }
        1
    } else if in0 && in1 && !in2 {
        let pair = clip_two_inside(&n, plane_point, &tri.v0, &tri.v1, &tri.v2, &tri.t0, &tri.t1, &tri.t2, tri.intensity);
        out_triangles.push(pair.0);
        out_triangles.push(pair.1);
        proof {
            assert(out_triangles@ =~= old(out_triangles)@ + res);
        }
        2
    } else if in0 && !in1 && in2 {
        let pair = clip_two_inside(&n, plane_point, &tri.v0, &tri.v2, &tri.v1, &tri.t0, &tri.t2, &tri.t1, tri.intensity);
        out_triangles.push(pair.0);
        out_triangles.push(pair.1);
        proof {
            assert(out_triangles@ =~= old(out_triangles)@ + res);
        }
        2
    } else {
        let pair = clip_two_inside(&n, plane_point, &tri.v1, &tri.v2, &tri.v0, &tri.t1, &tri.t2, &tri.t0, tri.intensity);
        out_triangles.push(pair.0);
        out_triangles.push(pair.1);
        proof {
            assert(out_triangles@ =~= old(out_triangles)@ + res);
        }
        2
    }
}

fn clip_one_inside(
    n: &Vector3,
    plane_point: &Vector3,
    inside: &Vertex,
    out1: &Vertex,
    out2: &Vertex,
    tex_in: &Vector2,
    tex_out1: &Vector2,
    tex_out2: &Vector2,
    intensity: i64,
) -> (r: Triangle)
    ensures
        r == clip_one_inside_s(
            *n,
            *plane_point,
            *inside,
            *out1,
            *out2,
            *tex_in,
            *tex_out1,
            *tex_out2,
            intensity,
        ),
{
    let r1: (Vector3, i64) = line_plane_intersection(n, plane_point, inside, out1);
    let r2: (Vector3, i64) = line_plane_intersection(n, plane_point, inside, out2);
    Triangle {
        v0: *inside,
        v1: r1.0,
        v2: r2.0,
        intensity,
        t0: *tex_in,
        t1: interp_tex(r1.1, tex_in, tex_out1),
        t2: interp_tex(r2.1, tex_in, tex_out2),
    }
}

fn clip_two_inside(
    n: &Vector3,
    plane_point: &Vector3,
    in1: &Vertex,
    in2: &Vertex,
    out: &Vertex,
    tex_in1: &Vector2,
    tex_in2: &Vector2,
    tex_out: &Vector2,
    intensity: i64,
) -> (r: (Triangle, Triangle))
    ensures
        r == clip_two_inside_s(
            *n,
            *plane_point,
            *in1,
            *in2,
            *out,
            *tex_in1,
            *tex_in2,
            *tex_out,
            intensity,
        ),
{
    let r1: (Vector3, i64) = line_plane_intersection(n, plane_point, in1, out);
    let r2: (Vector3, i64) = line_plane_intersection(n, plane_point, in2, out);
    let shared: Vector2 = interp_tex(r1.1, tex_in1, tex_out);
    (
        Triangle {
            v0: *in1,
            v1: *in2,
            v2: r1.0,
            intensity,
            t0: *tex_in1,
            t1: *tex_in2,
            t2: shared,
        },
        Triangle {
            v0: *in2,
            v1: r2.0,
            v2: r1.0,
            intensity,
            t0: *tex_in2,
            t1: interp_tex(r2.1, tex_in2, tex_out),
            t2: shared,
        },
    )
}


/// A triangle with all three corners on the inside of a clip plane is
/// returned unchanged, corner for corner and texture coordinate for texture
/// coordinate.
pub proof fn lemma_clip_fully_inside(plane_normal: Vector3, plane_point: Vector3, tri: Triangle)
    requires
        dist_point_plane_s(tri.v0, vec_normalize_s(plane_normal), plane_point) >= 0,
        dist_point_plane_s(tri.v1, vec_normalize_s(plane_normal), plane_point) >= 0,
        dist_point_plane_s(tri.v2, vec_normalize_s(plane_normal), plane_point) >= 0,
    ensures
        clip_results_s(plane_normal, plane_point, tri) == seq![tri],
{
    assert(clip_results_s(plane_normal, plane_point, tri) =~= seq![tri]);
}

/// A triangle with all three corners strictly outside a clip plane is
/// clipped away entirely.
pub proof fn lemma_clip_fully_outside(plane_normal: Vector3, plane_point: Vector3, tri: Triangle)
    requires
        dist_point_plane_s(tri.v0, vec_normalize_s(plane_normal), plane_point) < 0,
        dist_point_plane_s(tri.v1, vec_normalize_s(plane_normal), plane_point) < 0,
        dist_point_plane_s(tri.v2, vec_normalize_s(plane_normal), plane_point) < 0,
    ensures
        clip_results_s(plane_normal, plane_point, tri).len() == 0,
{
}

/// A triangle with exactly one corner inside yields exactly one triangle:
/// the surviving corner, plus the two crossings of the cut edges with the
/// plane (texture coordinates interpolated by the same parameters).
pub proof fn lemma_clip_one_inside(plane_normal: Vector3, plane_point: Vector3, tri: Triangle)
    requires
        dist_point_plane_s(tri.v0, vec_normalize_s(plane_normal), plane_point) >= 0,
        dist_point_plane_s(tri.v1, vec_normalize_s(plane_normal), plane_point) < 0,
        dist_point_plane_s(tri.v2, vec_normalize_s(plane_normal), plane_point) < 0,
    ensures
        clip_results_s(plane_normal, plane_point, tri).len() == 1,
        clip_results_s(plane_normal, plane_point, tri)[0] == clip_one_inside_s(
            vec_normalize_s(plane_normal),
            plane_point,
            tri.v0,
            tri.v1,
            tri.v2,
            tri.t0,
            tri.t1,
            tri.t2,
            tri.intensity,
        ),
        clip_results_s(plane_normal, plane_point, tri)[0].v0 == tri.v0,
        clip_results_s(plane_normal, plane_point, tri)[0].v1 == line_plane_intersection_s(
            vec_normalize_s(plane_normal),
            plane_point,
            tri.v0,
            tri.v1,
        ).0,
        clip_results_s(plane_normal, plane_point, tri)[0].v2 == line_plane_intersection_s(
            vec_normalize_s(plane_normal),
            plane_point,
            tri.v0,
            tri.v2,
        ).0,
{
}

/// A triangle with exactly two corners inside yields exactly two triangles
/// that tile the surviving quadrilateral: they share the crossing from the
/// first inside corner as a diagonal, and their other new corner is the
/// crossing from the second inside corner.
pub proof fn lemma_clip_two_inside(plane_normal: Vector3, plane_point: Vector3, tri: Triangle)
    requires
        dist_point_plane_s(tri.v0, vec_normalize_s(plane_normal), plane_point) >= 0,
        dist_point_plane_s(tri.v1, vec_normalize_s(plane_normal), plane_point) >= 0,
        dist_point_plane_s(tri.v2, vec_normalize_s(plane_normal), plane_point) < 0,
    ensures
        clip_results_s(plane_normal, plane_point, tri).len() == 2,
        clip_results_s(plane_normal, plane_point, tri)[0].v0 == tri.v0,
        clip_results_s(plane_normal, plane_point, tri)[0].v1 == tri.v1,
        clip_results_s(plane_normal, plane_point, tri)[0].v2 == line_plane_intersection_s(
            vec_normalize_s(plane_normal),
            plane_point,
            tri.v0,
            tri.v2,
        ).0,
        clip_results_s(plane_normal, plane_point, tri)[1].v0 == tri.v1,
        clip_results_s(plane_normal, plane_point, tri)[1].v1 == line_plane_intersection_s(
            vec_normalize_s(plane_normal),
            plane_point,
            tri.v1,
            tri.v2,
        ).0,
        clip_results_s(plane_normal, plane_point, tri)[1].v2 == clip_results_s(
            plane_normal,
            plane_point,
            tri,
        )[0].v2,
{
}


/// The projection preserves view depth in the homogeneous coordinate: a
/// point on the view axis at depth `d` — in particular at the near-plane
/// distance itself — projects to a homogeneous `w` of exactly `d`, so the
/// perspective divide divides by the point's own view depth and the stored
/// reciprocal weight is exactly `1 / d`.
pub proof fn lemma_projection_preserves_depth(
    aspect_ratio: i64,
    fov: i64,
    near: i64,
    far: i64,
    d: i64,
)
    requires
        crate::fixed::fx_in_range(d),
    ensures
        mult_vec_mat_s(
            Vector3 { x: 0, y: 0, z: d, w: FX_ONE },
            projection_matrix_s(aspect_ratio, fov, near, far),
        ).w == d,
{
    crate::fixed::lemma_fx_mul_zero(projection_matrix_s(aspect_ratio, fov, near, far).m03);
    crate::fixed::lemma_fx_mul_zero(projection_matrix_s(aspect_ratio, fov, near, far).m13);
    crate::fixed::lemma_fx_mul_zero(FX_ONE);
    crate::fixed::lemma_fx_mul_one(d);
}


/// The forward axis is exactly its own normalization: its squared length
/// is exactly 1 and the componentwise divisions are exact.
pub proof fn lemma_forward_normalize()
    ensures
        vec_normalize_s(Vector3 { x: 0, y: 0, z: FX_ONE, w: FX_ONE }) == (Vector3 {
            x: 0,
            y: 0,
            z: FX_ONE,
            w: FX_ONE,
        }),
{
    let f = Vector3 { x: 0, y: 0, z: FX_ONE, w: FX_ONE };
    crate::fixed::lemma_fx_mul_zero(0);
    crate::fixed::lemma_fx_mul_one(FX_ONE);
    assert(len_sq_s(f) == FX_ONE);
    crate::fixed::lemma_isqrt_value((FX_ONE * FX_ONE) as int, FX_ONE as int);
    assert(crate::fixed::fx_sqrt_s(FX_ONE) == FX_ONE);
    vstd::arithmetic::div_mod::lemma_div_of0(FX_ONE as int);
    vstd::arithmetic::div_mod::lemma_div_multiples_vanish(FX_ONE as int, FX_ONE as int);
    assert(fx_div_s(0, FX_ONE) == 0);
    assert(fx_div_s(FX_ONE, FX_ONE) == FX_ONE);
}

/// Dotting with the forward axis reads off the `z` component (for a `z`
/// inside the scalar range), whichever side the axis stands on.
pub proof fn lemma_forward_dot(v: Vector3)
    requires
        crate::fixed::fx_in_range(v.z),
    ensures
        dot_product_s(Vector3 { x: 0, y: 0, z: FX_ONE, w: FX_ONE }, v) == v.z,
        dot_product_s(v, Vector3 { x: 0, y: 0, z: FX_ONE, w: FX_ONE }) == v.z,
{
    crate::fixed::lemma_fx_mul_zero(v.x);
    crate::fixed::lemma_fx_mul_zero(v.y);
    crate::fixed::lemma_fx_mul_one(v.z);
}

/// Crossing the near plane from an inside corner: the interpolated crossing
/// never lands in front of the plane. The parameter `t` is at most 1
/// because the plane lies between the endpoints, and truncation only moves
/// the crossing toward the inside corner.
pub proof fn lemma_near_isect_z(plane_z: i64, s: Vector3, e: Vector3)
    requires
        0 < plane_z <= 0x2000_0000_0000_0000,
        -0x2000_0000_0000_0000 <= s.z <= 0x2000_0000_0000_0000,
        -0x2000_0000_0000_0000 <= e.z <= 0x2000_0000_0000_0000,
        s.z >= plane_z,
        e.z < plane_z,
    ensures
        line_plane_intersection_s(
            Vector3 { x: 0, y: 0, z: FX_ONE, w: FX_ONE },
            Vector3 { x: 0, y: 0, z: plane_z, w: FX_ONE },
            s,
            e,
        ).0.z >= plane_z,
{
    let fwd = Vector3 { x: 0, y: 0, z: FX_ONE, w: FX_ONE };
    let pt = Vector3 { x: 0, y: 0, z: plane_z, w: FX_ONE };
    lemma_forward_normalize();
    lemma_forward_dot(pt);
    lemma_forward_dot(s);
    let dir = vec_sub_s(e, s);
    lemma_forward_dot(dir);
    let a = crate::fixed::fx_sub_s(plane_z, s.z);
    assert(a == plane_z - s.z);
    assert(dir.z == e.z - s.z);
    let amag = (s.z - plane_z) as int;
    let bmag = (s.z - e.z) as int;
    assert(0 <= amag < bmag);
    let t = fx_div_s(a, dir.z);
    let q = crate::fixed::tdiv(a * FX_ONE, dir.z as int);
    assert(vstd::math::abs(a * FX_ONE) == amag * FX_ONE) by {
        vstd::arithmetic::mul::lemma_mul_unary_negation(amag, FX_ONE as int);
    }
    assert(vstd::math::abs(dir.z as int) == bmag);
    vstd::arithmetic::div_mod::lemma_div_pos_is_pos(amag * FX_ONE, bmag);
    vstd::arithmetic::mul::lemma_mul_inequality(amag, bmag, FX_ONE as int);
    vstd::arithmetic::div_mod::lemma_div_is_ordered(amag * FX_ONE, bmag * FX_ONE, bmag);
    vstd::arithmetic::div_mod::lemma_div_multiples_vanish(FX_ONE as int, bmag);
    assert((bmag * FX_ONE) / bmag == FX_ONE);
    if a == 0 {
        vstd::arithmetic::div_mod::lemma_div_of0(bmag);
    }
    assert(0 <= q <= FX_ONE);
    assert(t == q);
    // the crossing offset along z is within one truncation of the exact one
    let qq = (amag * FX_ONE) / bmag;
    assert(q == qq);
    let r = (amag * FX_ONE) % bmag;
    vstd::arithmetic::div_mod::lemma_fundamental_div_mod(amag * FX_ONE, bmag);
    assert(amag * FX_ONE == bmag * qq + r);
    assert(0 <= r < bmag) by {
        vstd::arithmetic::div_mod::lemma_mod_division_less_than_divisor(amag * FX_ONE, bmag);
    }
    let prod = (dir.z as int) * (t as int);
    assert(prod == a * FX_ONE + r) by {
        vstd::arithmetic::mul::lemma_mul_unary_negation(bmag, qq);
        vstd::arithmetic::mul::lemma_mul_is_commutative(bmag, qq);
        vstd::arithmetic::mul::lemma_mul_unary_negation(amag, FX_ONE as int);
    }
    let z_ofs = crate::fixed::tdiv(prod, FX_ONE as int);
    assert(z_ofs >= a) by {
        if prod >= 0 {
            vstd::arithmetic::div_mod::lemma_div_pos_is_pos(prod, FX_ONE as int);
        } else {
            assert(vstd::math::abs(prod) <= amag * FX_ONE);
            vstd::arithmetic::div_mod::lemma_div_is_ordered(
                vstd::math::abs(prod) as int,
                amag * FX_ONE,
                FX_ONE as int,
            );
            vstd::arithmetic::mul::lemma_mul_is_commutative(amag, FX_ONE as int);
            vstd::arithmetic::div_mod::lemma_div_multiples_vanish(amag, FX_ONE as int);
        }
    }
    assert(z_ofs <= 0x4000_0000_0000_0000) by {
        if prod >= 0 {
            vstd::arithmetic::div_mod::lemma_div_nonincreasing(prod, FX_ONE as int);
        }
    }
    assert(crate::fixed::fx_mul_s(dir.z, t) == z_ofs);
    assert(line_plane_intersection_s(fwd, pt, s, e).0.z == crate::fixed::fx_add_s(s.z, z_ofs as i64));
    assert(s.z + z_ofs >= plane_z);
}

/// Clipping against the near plane leaves no corner in front of it: every
/// vertex of every output triangle lies at `z >= plane_z` exactly — kept
/// corners because they classified as inside, new corners by
/// `lemma_near_isect_z`.
pub proof fn lemma_near_clip_depth(plane_z: i64, tri: Triangle)
    requires
        0 < plane_z <= 0x2000_0000_0000_0000,
        -0x2000_0000_0000_0000 <= tri.v0.z <= 0x2000_0000_0000_0000,
        -0x2000_0000_0000_0000 <= tri.v1.z <= 0x2000_0000_0000_0000,
        -0x2000_0000_0000_0000 <= tri.v2.z <= 0x2000_0000_0000_0000,
    ensures
        forall|i: int|
            0 <= i < clip_results_s(
                Vector3 { x: 0, y: 0, z: FX_ONE, w: FX_ONE },
                Vector3 { x: 0, y: 0, z: plane_z, w: FX_ONE },
                tri,
            ).len() ==> (#[trigger] clip_results_s(
                Vector3 { x: 0, y: 0, z: FX_ONE, w: FX_ONE },
                Vector3 { x: 0, y: 0, z: plane_z, w: FX_ONE },
                tri,
            )[i]).v0.z >= plane_z && clip_results_s(
                Vector3 { x: 0, y: 0, z: FX_ONE, w: FX_ONE },
                Vector3 { x: 0, y: 0, z: plane_z, w: FX_ONE },
                tri,
            )[i].v1.z >= plane_z && clip_results_s(
                Vector3 { x: 0, y: 0, z: FX_ONE, w: FX_ONE },
                Vector3 { x: 0, y: 0, z: plane_z, w: FX_ONE },
                tri,
            )[i].v2.z >= plane_z,
{
    let fwd = Vector3 { x: 0, y: 0, z: FX_ONE, w: FX_ONE };
    let pt = Vector3 { x: 0, y: 0, z: plane_z, w: FX_ONE };
    lemma_forward_normalize();
    lemma_forward_dot(pt);
    lemma_forward_dot(tri.v0);
    lemma_forward_dot(tri.v1);
    lemma_forward_dot(tri.v2);
    assert(dist_point_plane_s(tri.v0, fwd, pt) >= 0 <==> tri.v0.z >= plane_z);
    assert(dist_point_plane_s(tri.v1, fwd, pt) >= 0 <==> tri.v1.z >= plane_z);
    assert(dist_point_plane_s(tri.v2, fwd, pt) >= 0 <==> tri.v2.z >= plane_z);
    let in0 = tri.v0.z >= plane_z;
    let in1 = tri.v1.z >= plane_z;
    let in2 = tri.v2.z >= plane_z;
    if in0 && !in1 {
        lemma_near_isect_z(plane_z, tri.v0, tri.v1);
    }
    if in0 && !in2 {
        lemma_near_isect_z(plane_z, tri.v0, tri.v2);
    }
    if in1 && !in0 {
        lemma_near_isect_z(plane_z, tri.v1, tri.v0);
    }
    if in1 && !in2 {
        lemma_near_isect_z(plane_z, tri.v1, tri.v2);
    }
    if in2 && !in0 {
        lemma_near_isect_z(plane_z, tri.v2, tri.v0);
    }
    if in2 && !in1 {
        lemma_near_isect_z(plane_z, tri.v2, tri.v1);
    }
}

} // verus!
