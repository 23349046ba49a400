//! Pseudo-random initialization of the particle population. The only
//! unverified step is drawing a sample in `[0, 1)`; everything built
//! from the samples is a verified function of their bit patterns.
use vstd::prelude::*;

use crate::fbits::{
    f32_add, f32_add_of, f32_div, f32_div_of, f32_mul, f32_mul_of, f32_sub, f32_sub_of, HALF_BITS,
    ONE_BITS, ZERO_BITS,
};
use crate::mat::{normalize_of, vec3_normalize, QuatBits, Vec3Bits, Vec4Bits};
use crate::vertex::{Instance, ParticleDrift};

verus! {

/// Bit pattern of `2.0f32`.
pub const TWO_BITS: u32 = 0x4000_0000;

/// Bit pattern of `4.0f32`.
pub const FOUR_BITS: u32 = 0x4080_0000;

/// Bit pattern of `5.0f32`.
pub const FIVE_BITS: u32 = 0x40A0_0000;

/// Bit pattern of `850.0f32`, the spread of initial x positions.
pub const X_SPREAD_BITS: u32 = 0x4454_8000;

/// Bit pattern of `820.0f32`, the spread of initial y positions.
pub const Y_SPREAD_BITS: u32 = 0x444D_0000;

/// Bit pattern of `1000.0f32`, the spread of initial z positions.
pub const Z_SPREAD_BITS: u32 = 0x447A_0000;

/// Bit pattern of `0.1f32`, the offset of initial z positions.
pub const Z_OFFSET_BITS: u32 = 0x3DCC_CCCD;

/// Bit pattern of `0.12f32`, the base of the red channel.
pub const RED_BASE_BITS: u32 = 0x3DF5_C28F;

/// Bit pattern of `0.75f32`, the base of the green channel.
pub const GREEN_BASE_BITS: u32 = 0x3F40_0000;

/// Relies on `rand::random` for `f32`, the `Standard` distribution:
/// every sample lies in `[0, 1)`, and the bit patterns of non-negative
/// floats are ordered as their values, so the pattern is below the
/// pattern of `1.0`.
#[verifier::external_body]
fn random_unit_bits() -> (r: u32)
    ensures
        r < ONE_BITS,
{
    let v: [u32; 2] = bytemuck::cast(glam::Vec2::splat(rand::random()));
    v[0]
}

/// `(r - offset) * scale`: how one random sample becomes one position
/// coordinate.
pub open spec fn spread_of(r: u32, offset: u32, scale: u32) -> u32 {
    f32_mul_of(f32_sub_of(r, offset), scale)
}

fn spread(r: u32, offset: u32, scale: u32) -> (s: u32)
    ensures
        s == spread_of(r, offset, scale),
{
    f32_mul(f32_sub(r, offset), scale)
}

/// The red channel: `0.12 + rc / 4 + (x / 850 + 0.5) / 2`, where `x`
/// is the particle's x coordinate.
pub open spec fn red_of(rc: u32, x: u32) -> u32 {
    f32_add_of(
        f32_add_of(RED_BASE_BITS, f32_div_of(rc, FOUR_BITS)),
        f32_div_of(f32_add_of(f32_div_of(x, X_SPREAD_BITS), HALF_BITS), TWO_BITS),
    )
}

/// The green channel: `0.75 + rc / 5`.
pub open spec fn green_of(rc: u32) -> u32 {
    f32_add_of(GREEN_BASE_BITS, f32_div_of(rc, FIVE_BITS))
}

/// Builds one particle from six random samples: three for the
/// position, three for the color. The rotation is the identity
/// quaternion and the alpha channel is one.
pub fn make_instance(rx: u32, ry: u32, rz: u32, rc0: u32, rc1: u32, rc2: u32) -> (p: Instance)
    ensures
        p.position.x == spread_of(rx, HALF_BITS, X_SPREAD_BITS),
        p.position.y == spread_of(ry, HALF_BITS, Y_SPREAD_BITS),
        p.position.z == spread_of(rz, Z_OFFSET_BITS, Z_SPREAD_BITS),
        p.rotation == (QuatBits { x: ZERO_BITS, y: ZERO_BITS, z: ZERO_BITS, w: ONE_BITS }),
        p.color.x == red_of(rc0, p.position.x),
        p.color.y == green_of(rc1),
        p.color.z == rc2,
        p.color.w == ONE_BITS,
{
    let x = spread(rx, HALF_BITS, X_SPREAD_BITS);
    let y = spread(ry, HALF_BITS, Y_SPREAD_BITS);
    let z = spread(rz, Z_OFFSET_BITS, Z_SPREAD_BITS);
    let red = f32_add(
        f32_add(RED_BASE_BITS, f32_div(rc0, FOUR_BITS)),
        f32_div(f32_add(f32_div(x, X_SPREAD_BITS), HALF_BITS), TWO_BITS),
    );
    let green = f32_add(GREEN_BASE_BITS, f32_div(rc1, FIVE_BITS));
    Instance {
        position: Vec3Bits { x, y, z },
        rotation: QuatBits { x: ZERO_BITS, y: ZERO_BITS, z: ZERO_BITS, w: ONE_BITS },
        color: Vec4Bits { x: red, y: green, z: rc2, w: ONE_BITS },
    }
}

/// The drift a particle gets from three random samples: the direction
/// `(r0 - 0.5, r1 - 0.5, r2 - 0.5)` normalized, then every component
/// divided by five.
pub open spec fn drift_of(r0: u32, r1: u32, r2: u32) -> Seq<u32> {
    let n = normalize_of(
        seq![f32_sub_of(r0, HALF_BITS), f32_sub_of(r1, HALF_BITS), f32_sub_of(r2, HALF_BITS)],
    );
    seq![
        f32_div_of(n[0], FIVE_BITS),
        f32_div_of(n[1], FIVE_BITS),
        f32_div_of(n[2], FIVE_BITS),
    ]
}

/// Builds one drift velocity from three random samples.
pub fn make_drift(r0: u32, r1: u32, r2: u32) -> (d: ParticleDrift)
    ensures
        d.velocity@ == drift_of(r0, r1, r2),
{
    let dir = Vec3Bits {
        x: f32_sub(r0, HALF_BITS),
        y: f32_sub(r1, HALF_BITS),
        z: f32_sub(r2, HALF_BITS),
    };
    let n = vec3_normalize(&dir);
    proof {
        assert(dir@ =~= seq![
            f32_sub_of(r0, HALF_BITS),
            f32_sub_of(r1, HALF_BITS),
            f32_sub_of(r2, HALF_BITS),
        ]);
    }
    let d = ParticleDrift {
        velocity: Vec3Bits {
            x: f32_div(n.x, FIVE_BITS),
            y: f32_div(n.y, FIVE_BITS),
            z: f32_div(n.z, FIVE_BITS),
        },
    };
    proof {
        assert(n@[0] == n.x && n@[1] == n.y && n@[2] == n.z);
        assert(d.velocity@ =~= drift_of(r0, r1, r2));
    }
    d
}

/// Draws `n` particles. Whatever the samples were, every particle has
/// the identity rotation and an opaque color.
pub fn generate_instances(n: usize) -> (r: Vec<Instance>)
    ensures
        r@.len() == n,
        forall|i: int|
            0 <= i < n ==> (#[trigger] r@[i]).rotation == (QuatBits {
                x: ZERO_BITS,
                y: ZERO_BITS,
                z: ZERO_BITS,
                w: ONE_BITS,
            }) && r@[i].color.w == ONE_BITS,
{
    let mut r: Vec<Instance> = Vec::new();
    let mut i: usize = 0;
    while i < n
        invariant
            i <= n,
            r@.len() == i,
            forall|j: int|
                0 <= j < i ==> (#[trigger] r@[j]).rotation == (QuatBits {
                    x: ZERO_BITS,
                    y: ZERO_BITS,
                    z: ZERO_BITS,
                    w: ONE_BITS,
                }) && r@[j].color.w == ONE_BITS,
        decreases n - i,
    {
        let rx = random_unit_bits();
        let ry = random_unit_bits();
        let rz = random_unit_bits();
        let rc0 = random_unit_bits();
        let rc1 = random_unit_bits();
        let rc2 = random_unit_bits();
        r.push(make_instance(rx, ry, rz, rc0, rc1, rc2));
        i = i + 1;
    }
    r
}

/// Draws `n` drift velocities.
pub fn generate_drifts(n: usize) -> (r: Vec<ParticleDrift>)
    ensures
        r@.len() == n,
{
    let mut r: Vec<ParticleDrift> = Vec::new();
    let mut i: usize = 0;
    while i < n
        invariant
            i <= n,
            r@.len() == i,
        decreases n - i,
    {
        let r0 = random_unit_bits();
        let r1 = random_unit_bits();
        let r2 = random_unit_bits();
        r.push(make_drift(r0, r1, r2));
        i = i + 1;
    }
    r
}

} // verus!
