//! A software (CPU-resident) 3D geometry and rasterization pipeline over
//! fixed-point scalars: model transform, view transform, near-plane clipping,
//! perspective projection, screen-space clipping, and scanline rasterization
//! with a per-pixel depth test and perspective-correct texture sampling.
use vstd::prelude::*;

pub mod camera;
pub mod fixed;
pub mod matrix;
pub mod mesh;
pub mod raster;

pub use camera::Camera;
pub use fixed::FX_ONE;
pub use matrix::Vector3;
pub use mesh::Mesh;
pub use raster::Image;

use matrix::Mat4x4;
use mesh::mesh_draw_s;

verus! {

/// Vertical field of view, in fixed-point degrees (90).
pub const FOV: i64 = 90 * 65536;

/// Near-plane distance, fixed point (0.1, truncated).
pub const NEAR: i64 = 6553;

/// Far-plane distance, fixed point (100).
pub const FAR: i64 = 100 * 65536;

/// A renderable object: a mesh with its rigid transform and an optional
/// texture.
pub struct Object {
    pub mesh: Mesh,
    pub position: Vector3,
    pub rotation: Vector3,
    pub texture: Option<Image>,
}

impl Object {
    /// Render this object for one frame into the caller's buffers; the
    /// result is exactly `mesh_draw_s` of its mesh under its own rotation,
    /// translation and texture.
    pub fn draw(
        &self,
        width: i64,
        height: i64,
        camera: &Camera,
        light_direction: &Vector3,
        projection_mat: &Mat4x4,
        view_mat: &Mat4x4,
        image: &mut Image,
        depth_buffer: &mut Vec<i64>,
    )
        requires
            self.mesh.wf(),
            old(image).wf(),
            old(depth_buffer)@.len() == old(image).width * old(image).height,
            match self.texture {
                Option::Some(img) => img.wf(),
                Option::None => true,
            },
        ensures
            final(image).wf(),
            final(image).width == old(image).width,
            final(image).height == old(image).height,
            final(depth_buffer)@.len() == old(depth_buffer)@.len(),
            (final(image).pixels@, final(depth_buffer)@) == mesh_draw_s(
                self.mesh,
                width,
                height,
                self.rotation,
                self.position,
                *view_mat,
                camera.position,
                *light_direction,
                *projection_mat,
                self.texture,
                old(image).width as int,
                old(image).height as int,
                old(image).pixels@,
                old(depth_buffer)@,
            ),
    {
        self.mesh.draw(
            width,
            height,
            &self.rotation,
            &self.position,
            view_mat,
            &camera.position,
            light_direction,
            projection_mat,
            image,
            &self.texture,
            depth_buffer,
        );
    }
}

} // verus!
