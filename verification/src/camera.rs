//! The camera: eye, target, up and projection parameters, all as `f32`
//! bit patterns, and the GPU-visible uniform that mirrors its
//! view-projection matrix.
use vstd::prelude::*;

use crate::fbits::{
    f32_add, f32_add_of, f32_div, f32_div_of, f32_mul, f32_mul_of, f32_of_u32, u32_to_f32,
    NEG_ONE_BITS, ONE_BITS, ZERO_BITS,
};
use crate::mat::{
    look_at_rh, look_at_rh_of, mat_mul, mat_mul_of, perspective_rh_gl, perspective_rh_gl_of,
    Mat4Bits, Vec3Bits,
};

verus! {

/// Bit pattern of `std::f32::consts::PI`.
pub const PI_BITS: u32 = 0x4049_0FDB;

/// Bit pattern of `180.0f32`.
pub const DEG_HALF_TURN_BITS: u32 = 0x4334_0000;

/// Bit pattern of `50.0f32`, the scroll-to-depth dolly scale.
pub const DOLLY_SCALE_BITS: u32 = 0x4248_0000;

/// The camera's parameters. The field of view is held in degrees, as
/// its bit pattern, and converted to radians when the projection is
/// built.
#[derive(Clone, Copy, PartialEq, Eq, Structural, Debug)]
pub struct Camera {
    pub eye: Vec3Bits,
    pub target: Vec3Bits,
    pub up: Vec3Bits,
    pub aspect: u32,
    pub fovy: u32,
    pub znear: u32,
    pub zfar: u32,
}

/// The field of view in radians: `fovy * PI / 180`, in that order.
pub open spec fn fovy_radians_of(fovy: u32) -> u32 {
    f32_div_of(f32_mul_of(fovy, PI_BITS), DEG_HALF_TURN_BITS)
}

/// The view-projection matrix of a camera: a right-handed look-at view
/// composed with a right-handed, OpenGL-depth perspective projection,
/// as a function of the camera's fields alone.
pub open spec fn spec_view_proj(c: Camera) -> Seq<u32> {
    mat_mul_of(
        perspective_rh_gl_of(fovy_radians_of(c.fovy), c.aspect, c.znear, c.zfar),
        look_at_rh_of(c.eye@, c.target@, c.up@),
    )
}

/// The aspect ratio for a surface of the given pixel size: width over
/// height, both converted to `f32` first.
pub open spec fn aspect_of(width: u32, height: u32) -> u32 {
    f32_div_of(f32_of_u32(width), f32_of_u32(height))
}

impl Camera {
    /// Builds the view-projection matrix. The result is a function of
    /// the camera's fields alone: repeated calls on an unchanged
    /// camera return bit-identical matrices.
    pub fn build_view_projection_matrix(&self) -> (r: Mat4Bits)
        ensures
            r@ == spec_view_proj(*self),
    {
        let view = look_at_rh(&self.eye, &self.target, &self.up);
        let fovy_radians = f32_div(f32_mul(self.fovy, PI_BITS), DEG_HALF_TURN_BITS);
        let proj = perspective_rh_gl(fovy_radians, self.aspect, self.znear, self.zfar);
        mat_mul(&proj, &view)
    }

    /// Recomputes the aspect ratio for a new surface size. A zero-area
    /// size is rejected: the camera is left entirely unchanged.
    pub fn apply_resize(&mut self, width: u32, height: u32)
        ensures
            width == 0 || height == 0 ==> *final(self) == *old(self),
            width > 0 && height > 0 ==> *final(self) == (Camera {
                aspect: aspect_of(width, height),
                ..*old(self)
            }),
    {
        if width > 0 && height > 0 {
            self.aspect = f32_div(u32_to_f32(width), u32_to_f32(height));
        }
    }

    /// A scroll moves the eye along the depth axis by `delta / 50` and
    /// recomputes the target as `eye + (0, 0, -1)`, keeping a fixed
    /// forward direction: a simplified dolly, not an orbit. `delta` is
    /// the scroll distance as an `f32` bit pattern.
    pub fn apply_scroll(&mut self, delta: u32)
        ensures
            final(self).eye.x == old(self).eye.x,
            final(self).eye.y == old(self).eye.y,
            final(self).eye.z == f32_add_of(
                old(self).eye.z,
                f32_div_of(delta, DOLLY_SCALE_BITS),
            ),
            final(self).target.x == f32_add_of(final(self).eye.x, ZERO_BITS),
            final(self).target.y == f32_add_of(final(self).eye.y, ZERO_BITS),
            final(self).target.z == f32_add_of(final(self).eye.z, NEG_ONE_BITS),
            final(self).up == old(self).up,
            final(self).aspect == old(self).aspect,
            final(self).fovy == old(self).fovy,
            final(self).znear == old(self).znear,
            final(self).zfar == old(self).zfar,
    {
        let dz = f32_div(delta, DOLLY_SCALE_BITS);
        self.eye = Vec3Bits { x: self.eye.x, y: self.eye.y, z: f32_add(self.eye.z, dz) };
        let forward = Vec3Bits { x: ZERO_BITS, y: ZERO_BITS, z: NEG_ONE_BITS };
        self.target = crate::mat::vec3_add(&self.eye, &forward);
    }
}

/// The GPU mirror of the camera: one column-major view-projection
/// matrix, rewritten every frame.
#[derive(Clone, Copy, Debug)]
pub struct CameraUniform {
    pub view_proj: Mat4Bits,
}

/// The bit patterns of the identity matrix.
pub open spec fn identity_seq() -> Seq<u32> {
    seq![
        ONE_BITS, ZERO_BITS, ZERO_BITS, ZERO_BITS,
        ZERO_BITS, ONE_BITS, ZERO_BITS, ZERO_BITS,
        ZERO_BITS, ZERO_BITS, ONE_BITS, ZERO_BITS,
        ZERO_BITS, ZERO_BITS, ZERO_BITS, ONE_BITS,
    ]
}

impl CameraUniform {
    /// Starts as the identity matrix, before the first refresh.
    pub fn new() -> (r: CameraUniform)
        ensures
            r.view_proj@ == identity_seq(),
    {
        let m: [u32; 16] = [
            ONE_BITS, ZERO_BITS, ZERO_BITS, ZERO_BITS,
            ZERO_BITS, ONE_BITS, ZERO_BITS, ZERO_BITS,
            ZERO_BITS, ZERO_BITS, ONE_BITS, ZERO_BITS,
            ZERO_BITS, ZERO_BITS, ZERO_BITS, ONE_BITS,
        ];
        let r = CameraUniform { view_proj: Mat4Bits { m } };
        proof {
            assert(r.view_proj@ =~= identity_seq());
        }
        r
    }

    /// Rewrites the mirror from the camera's current fields.
    pub fn update_view_proj(&mut self, camera: &Camera)
        ensures
            final(self).view_proj@ == spec_view_proj(*camera),
    {
        self.view_proj = camera.build_view_projection_matrix();
    }
}

} // verus!
