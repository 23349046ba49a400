//! Per-vertex quad geometry and per-instance particle data. An
//! `Instance` is the logical particle (position, rotation, color); an
//! `InstanceRaw` is its flattened GPU form (model matrix plus color),
//! the only representation the render pass reads.
use vstd::prelude::*;

use crate::fbits::{zero_add_stable, HALF_BITS, ONE_BITS, ZERO_BITS};
use crate::mat::{
    col3_is_unit_w, is_translation_mat, mat_from_quat, mat_from_translation, mat_mul, mat_mul_of,
    quat_mat_of, translation_seq, Mat4Bits, QuatBits, Vec3Bits, Vec4Bits,
};

verus! {

/// Bit pattern of `-0.5f32`, a corner coordinate of the unit quad.
pub const NEG_HALF_BITS: u32 = 0xBF00_0000;

/// One vertex of the quad every particle is drawn as: a position and a
/// texture coordinate, both as `f32` bit patterns.
#[derive(Clone, Copy, Debug)]
pub struct Vertex {
    pub position: [u32; 3],
    pub vertex_position: [u32; 2],
}

/// One logical particle.
#[derive(Clone, Copy, PartialEq, Eq, Structural, Debug)]
pub struct Instance {
    pub position: Vec3Bits,
    pub rotation: QuatBits,
    pub color: Vec4Bits,
}

/// The fixed per-particle drift velocity, applied every simulation step.
#[derive(Clone, Copy, PartialEq, Eq, Structural, Debug)]
pub struct ParticleDrift {
    pub velocity: Vec3Bits,
}

/// The GPU-resident form of a particle: a column-major model matrix
/// (translation composed with rotation) and the color.
#[derive(Clone, Copy, Debug)]
pub struct InstanceRaw {
    pub model: Mat4Bits,
    pub color: Vec4Bits,
}

/// The model matrix an instance flattens to: the translation by its
/// position, multiplied by the rotation matrix of its quaternion.
pub open spec fn raw_model_of(p: Instance) -> Seq<u32> {
    mat_mul_of(translation_seq(p.position@), quat_mat_of(p.rotation@))
}

/// `r` is exactly the flattened form of the particle `p`.
pub open spec fn is_raw_of(r: InstanceRaw, p: Instance) -> bool {
    r.model@ == raw_model_of(p) && r.color == p.color
}

/// The translation column of a flattened instance: entries 12..15 of
/// the model matrix, the w axis' first three components.
pub open spec fn spec_raw_translation(r: InstanceRaw) -> Vec3Bits {
    Vec3Bits { x: r.model@[12], y: r.model@[13], z: r.model@[14] }
}

/// Every component of the position is non-NaN and not `-0.0`, so the
/// position survives the matrix composition bit-for-bit.
pub open spec fn position_stable(p: Vec3Bits) -> bool {
    zero_add_stable(p.x) && zero_add_stable(p.y) && zero_add_stable(p.z)
}

impl Instance {
    /// Flattens the particle for the GPU. The model matrix is the
    /// translation by `position` composed with the rotation; for a
    /// stable position, reading the translation column back returns
    /// the position unchanged.
    pub fn to_raw(&self) -> (r: InstanceRaw)
        ensures
            is_raw_of(r, *self),
            position_stable(self.position) ==> spec_raw_translation(r) == self.position,
    {
        let t = mat_from_translation(&self.position);
        let q = mat_from_quat(&self.rotation);
        let model = mat_mul(&t, &q);
        proof {
            assert(is_translation_mat(t@));
            assert(t@[12] == self.position.x);
            assert(t@[13] == self.position.y);
            assert(t@[14] == self.position.z);
        }
        InstanceRaw { model, color: self.color }
    }
}

/// Reads the translation column (the position) out of a flattened
/// instance.
pub fn raw_position(r: &InstanceRaw) -> (p: Vec3Bits)
    ensures
        p == spec_raw_translation(*r),
{
    Vec3Bits { x: r.model.m[12], y: r.model.m[13], z: r.model.m[14] }
}

/// The four corners of the unit quad, with texture coordinates, in the
/// order the index list below refers to them.
pub fn quad_vertices() -> (r: Vec<Vertex>)
    ensures
        r@.len() == 4,
        r@[0].position@ == seq![NEG_HALF_BITS, NEG_HALF_BITS, ZERO_BITS],
        r@[0].vertex_position@ == seq![ZERO_BITS, ZERO_BITS],
        r@[1].position@ == seq![HALF_BITS, NEG_HALF_BITS, ZERO_BITS],
        r@[1].vertex_position@ == seq![ONE_BITS, ZERO_BITS],
        r@[2].position@ == seq![NEG_HALF_BITS, HALF_BITS, ZERO_BITS],
        r@[2].vertex_position@ == seq![ZERO_BITS, ONE_BITS],
        r@[3].position@ == seq![HALF_BITS, HALF_BITS, ZERO_BITS],
        r@[3].vertex_position@ == seq![ONE_BITS, ONE_BITS],
{
    let v0 = Vertex {
        position: [NEG_HALF_BITS, NEG_HALF_BITS, ZERO_BITS],
        vertex_position: [ZERO_BITS, ZERO_BITS],
    };
    let v1 = Vertex {
        position: [HALF_BITS, NEG_HALF_BITS, ZERO_BITS],
        vertex_position: [ONE_BITS, ZERO_BITS],
    };
    let v2 = Vertex {
        position: [NEG_HALF_BITS, HALF_BITS, ZERO_BITS],
        vertex_position: [ZERO_BITS, ONE_BITS],
    };
    let v3 = Vertex {
        position: [HALF_BITS, HALF_BITS, ZERO_BITS],
        vertex_position: [ONE_BITS, ONE_BITS],
    };
    let mut r: Vec<Vertex> = Vec::new();
    r.push(v0);
    r.push(v1);
    r.push(v2);
    r.push(v3);
    proof {
        assert(r@[0].position@ =~= seq![NEG_HALF_BITS, NEG_HALF_BITS, ZERO_BITS]);
        assert(r@[0].vertex_position@ =~= seq![ZERO_BITS, ZERO_BITS]);
        assert(r@[1].position@ =~= seq![HALF_BITS, NEG_HALF_BITS, ZERO_BITS]);
        assert(r@[1].vertex_position@ =~= seq![ONE_BITS, ZERO_BITS]);
        assert(r@[2].position@ =~= seq![NEG_HALF_BITS, HALF_BITS, ZERO_BITS]);
        assert(r@[2].vertex_position@ =~= seq![ZERO_BITS, ONE_BITS]);
        assert(r@[3].position@ =~= seq![HALF_BITS, HALF_BITS, ZERO_BITS]);
        assert(r@[3].vertex_position@ =~= seq![ONE_BITS, ONE_BITS]);
    }
    r
}

/// The two triangles of the quad, as indices into `quad_vertices`.
pub fn quad_indices() -> (r: Vec<u16>)
    ensures
        r@ == seq![0u16, 1u16, 2u16, 3u16, 2u16, 1u16],
{
    let mut r: Vec<u16> = Vec::new();
    r.push(0);
    r.push(1);
    r.push(2);
    r.push(3);
    r.push(2);
    r.push(1);
    proof {
        assert(r@ =~= seq![0u16, 1u16, 2u16, 3u16, 2u16, 1u16]);
    }
    r
}

} // verus!
