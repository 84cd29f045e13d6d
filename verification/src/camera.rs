//! The fly camera: a position, Euler angles, and a fixed up vector. Its
//! basis vectors come from rotating the canonical axes through the same
//! rotation composition the meshes use, and its view matrix from a look-at
//! frame inverted by transposition.
use vstd::prelude::*;

use crate::fixed::{
    fx_add, fx_add_s, fx_idiv, fx_idiv_s, fx_mul, fx_mul_s, fx_neg, fx_neg_s, fx_sub, fx_sub_s,
    FX_ONE,
};
use crate::matrix::{
    mat_multiply, mat_multiply_s, mult_vec_mat, mult_vec_mat_s, point_at_mat, point_at_mat_s,
    quick_inverse_mat, quick_inverse_mat_s, rotate_x, rotate_x_s, rotate_y, rotate_y_s, vec_add,
    vec_add_s, vec_mul, vec_mul_s, vec_sub, vec_sub_s, Mat4x4, Vector3,
};

verus! {

/// Camera translation speed, fixed point (15 units per second); rotation
/// runs at a tenth of it.
pub const CAMERA_SPEED: i64 = 15 * 65536;

/// A first-person camera: world position, pitch/yaw/roll angles in
/// fixed-point radians, and the world up vector.
pub struct Camera {
    pub position: Vector3,
    pub rotation_x: i64,
    pub rotation_y: i64,
    pub rotation_z: i64,
    pub up: Vector3,
}

/// A canonical basis vector carried through the camera's pitch-then-yaw
/// rotation.
pub open spec fn camera_basis_s(c: Camera, base: Vector3) -> Vector3 {
    mult_vec_mat_s(base, mat_multiply_s(rotate_x_s(c.rotation_x), rotate_y_s(c.rotation_y)))
}

/// The camera's forward direction.
pub open spec fn camera_direction_s(c: Camera) -> Vector3 {
    camera_basis_s(c, Vector3 { x: 0, y: 0, z: FX_ONE, w: FX_ONE })
}

/// The camera's right direction.
pub open spec fn camera_right_s(c: Camera) -> Vector3 {
    camera_basis_s(c, Vector3 { x: FX_ONE, y: 0, z: 0, w: FX_ONE })
}

/// The camera's up direction.
pub open spec fn camera_up_s(c: Camera) -> Vector3 {
    camera_basis_s(c, Vector3 { x: 0, y: FX_ONE, z: 0, w: FX_ONE })
}

/// The camera's view matrix: the look-at frame toward its forward
/// direction, inverted by `quick_inverse_mat_s`.
pub open spec fn view_mat_s(c: Camera) -> Mat4x4 {
    quick_inverse_mat_s(
        point_at_mat_s(c.position, vec_add_s(c.position, camera_direction_s(c)), c.up),
    )
}

/// The key state one input step reacts to.
#[derive(Clone, Copy, Debug, PartialEq, Eq, Structural)]
pub struct InputState {
    pub arrow_up: bool,
    pub arrow_down: bool,
    pub arrow_left: bool,
    pub arrow_right: bool,
    pub key_w: bool,
    pub key_s: bool,
    pub key_a: bool,
    pub key_d: bool,
    pub key_space: bool,
    pub key_shift: bool,
}

/// `Camera::handle_user_input` as a value: the camera after one input step
/// of `delta` seconds. The arrows turn first; forward motion uses the
/// direction from before the turn (it was sampled at entry), while
/// strafing and vertical motion use the turned basis.
pub open spec fn handle_user_input_s(c: Camera, input: InputState, delta: i64) -> Camera {
    let speed = fx_mul_s(CAMERA_SPEED, delta);
    let rot = fx_mul_s(fx_idiv_s(CAMERA_SPEED, 10), delta);
    let fwd = vec_mul_s(camera_direction_s(c), speed);
    let c1 = if input.arrow_up {
        Camera { rotation_x: fx_add_s(c.rotation_x, rot), ..c }
    } else {
        c
    };
    let c2 = if input.arrow_down {
        Camera { rotation_x: fx_sub_s(c1.rotation_x, rot), ..c1 }
    } else {
        c1
    };
    let c3 = if input.arrow_left {
        Camera { rotation_y: fx_sub_s(c2.rotation_y, rot), ..c2 }
    } else {
        c2
    };
    let c4 = if input.arrow_right {
        Camera { rotation_y: fx_add_s(c3.rotation_y, rot), ..c3 }
    } else {
        c3
    };
    let c5 = if input.key_w {
        Camera { position: vec_add_s(c4.position, fwd), ..c4 }
    } else {
        c4
    };
    let c6 = if input.key_s {
        Camera { position: vec_sub_s(c5.position, fwd), ..c5 }
    } else {
        c5
    };
    let c7 = if input.key_a {
        Camera { position: vec_add_s(c6.position, vec_mul_s(camera_right_s(c6), speed)), ..c6 }
    } else {
        c6
    };
    let c8 = if input.key_d {
        Camera {
            position: vec_add_s(c7.position, vec_mul_s(camera_right_s(c7), fx_neg_s(speed))),
            ..c7
        }
    } else {
        c7
    };
    let c9 = if input.key_space {
        Camera { position: vec_add_s(c8.position, vec_mul_s(camera_up_s(c8), speed)), ..c8 }
    } else {
        c8
    };
    if input.key_shift {
        Camera {
            position: vec_add_s(c9.position, vec_mul_s(camera_up_s(c9), fx_neg_s(speed))),
            ..c9
        }
    } else {
        c9
    }
}

impl Camera {
    /// A camera at the origin, level, with the world up vector.
    pub fn new() -> (r: Camera)
        ensures
            r.position == (Vector3 { x: 0, y: 0, z: 0, w: FX_ONE }),
            r.rotation_x == 0,
            r.rotation_y == 0,
            r.rotation_z == 0,
            r.up == (Vector3 { x: 0, y: FX_ONE, z: 0, w: FX_ONE }),
    {
        Camera {
            position: Vector3::new(0, 0, 0),
            rotation_x: 0,
            rotation_y: 0,
            rotation_z: 0,
            up: Vector3::new(0, FX_ONE, 0),
        }
    }

    /// The forward direction: `+z` rotated by pitch, then yaw.
    pub fn direction(&self) -> (r: Vector3)
        ensures
            r == camera_direction_s(*self),
    {
        let front: Vector3 = Vector3::new(0, 0, FX_ONE);
        let rotation_mat: Mat4x4 = mat_multiply(&rotate_x(self.rotation_x), &rotate_y(self.rotation_y));
        mult_vec_mat(&front, &rotation_mat)
    }

    /// The right direction: `+x` rotated by pitch, then yaw.
    pub fn right(&self) -> (r: Vector3)
        ensures
            r == camera_right_s(*self),
    {
        let right: Vector3 = Vector3::new(FX_ONE, 0, 0);
        let rotation_mat: Mat4x4 = mat_multiply(&rotate_x(self.rotation_x), &rotate_y(self.rotation_y));
        mult_vec_mat(&right, &rotation_mat)
    }

    /// The up direction: `+y` rotated by pitch, then yaw.
    pub fn up(&self) -> (r: Vector3)
        ensures
            r == camera_up_s(*self),
    {
        let up: Vector3 = Vector3::new(0, FX_ONE, 0);
        let rotation_mat: Mat4x4 = mat_multiply(&rotate_x(self.rotation_x), &rotate_y(self.rotation_y));
        mult_vec_mat(&up, &rotation_mat)
    }

    /// The view matrix: the inverse of the camera's look-at frame.
    pub fn return_view_mat(&self) -> (r: Mat4x4)
        ensures
            r == view_mat_s(*self),
    {
        let target: Vector3 = vec_add(&self.position, &self.direction());
        let point_at: Mat4x4 = point_at_mat(&self.position, &target, &self.up);
        quick_inverse_mat(&point_at)
    }

    /// Apply one input step of `delta` seconds: arrows turn, W/S move along
    /// the entry direction, A/D strafe, space and shift move along the
    /// camera's up.
    pub fn handle_user_input(&mut self, input: &InputState, delta: i64)
        ensures
            *final(self) == handle_user_input_s(*old(self), *input, delta),
    {
        let speed: i64 = fx_mul(CAMERA_SPEED, delta);
        let rot: i64 = fx_mul(fx_idiv(CAMERA_SPEED, 10), delta);
        let forward: Vector3 = vec_mul(&self.direction(), speed);
        if input.arrow_up {
            self.rotation_x = fx_add(self.rotation_x, rot);
        }
        if input.arrow_down {
            self.rotation_x = fx_sub(self.rotation_x, rot);
        }
        if input.arrow_left {
            self.rotation_y = fx_sub(self.rotation_y, rot);
        }
        if input.arrow_right {
            self.rotation_y = fx_add(self.rotation_y, rot);
        }
        if input.key_w {
            self.position = vec_add(&self.position, &forward);
        }
        if input.key_s {
            self.position = vec_sub(&self.position, &forward);
        }
        if input.key_a {
            let step: Vector3 = vec_mul(&self.right(), speed);
            self.position = vec_add(&self.position, &step);
        }
        if input.key_d {
            let step: Vector3 = vec_mul(&self.right(), fx_neg(speed));
            self.position = vec_add(&self.position, &step);
        }
        if input.key_space {
            let step: Vector3 = vec_mul(&self.up(), speed);
            self.position = vec_add(&self.position, &step);
        }
        if input.key_shift {
            let step: Vector3 = vec_mul(&self.up(), fx_neg(speed));
            self.position = vec_add(&self.position, &step);
        }
    }
}

} // verus!
