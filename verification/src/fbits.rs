//! Scalar IEEE-754 single-precision values, carried as their `u32` bit
//! patterns. The arithmetic itself is done by glam on the corresponding
//! `f32` values; here each operation's result is given a name that the
//! rest of the crate reasons with. Naming a result treats it as a
//! function of the operand bits; Rust leaves the payload of a NaN
//! produced by arithmetic unspecified, so on NaN-producing operands
//! that is an assumption. Every bit-exact clause in this crate
//! excludes NaN operands (see `zero_add_stable`), so nothing proved
//! here rests on a NaN's payload.
use vstd::prelude::*;

verus! {

/// Bit pattern of `0.0f32`.
pub const ZERO_BITS: u32 = 0x0000_0000;

/// Bit pattern of `-0.0f32`.
pub const NEG_ZERO_BITS: u32 = 0x8000_0000;

/// Bit pattern of `1.0f32`.
pub const ONE_BITS: u32 = 0x3F80_0000;

/// Bit pattern of `-1.0f32`.
pub const NEG_ONE_BITS: u32 = 0xBF80_0000;

/// Bit pattern of `0.5f32`.
pub const HALF_BITS: u32 = 0x3F00_0000;

/// True when the bit pattern encodes a NaN: exponent all ones and a
/// non-zero mantissa.
pub open spec fn is_nan_bits(b: u32) -> bool {
    (b >> 23) & 0xff == 0xff && (b & 0x007f_ffff) != 0
}

/// Bit patterns whose value is returned unchanged by adding `+0.0`:
/// everything except NaN (whose payload is not pinned down here) and
/// `-0.0` (for which `-0.0 + 0.0 == +0.0` changes the bits).
pub open spec fn zero_add_stable(b: u32) -> bool {
    !is_nan_bits(b) && b != NEG_ZERO_BITS
}

pub uninterp spec fn f32_add_of(a: u32, b: u32) -> u32;

pub uninterp spec fn f32_sub_of(a: u32, b: u32) -> u32;

pub uninterp spec fn f32_mul_of(a: u32, b: u32) -> u32;

pub uninterp spec fn f32_div_of(a: u32, b: u32) -> u32;

pub uninterp spec fn f32_of_u32(n: u32) -> u32;

/// Relies on glam's `Vec2` addition, which adds the two `x` components
/// with IEEE-754 `f32` addition. The second clause is the IEEE identity
/// `x + (+0.0) == x`, which holds bit-for-bit for every non-NaN `x`
/// other than `-0.0`.
#[verifier::external_body]
pub(crate) fn f32_add(a: u32, b: u32) -> (r: u32)
    ensures
        r == f32_add_of(a, b),
        b == ZERO_BITS && zero_add_stable(a) ==> r == a,
{
    let v: glam::Vec2 = bytemuck::cast([a, b]);
    let s: [u32; 2] = bytemuck::cast(v + glam::Vec2::splat(v.y));
    s[0]
}

/// Relies on glam's `Vec2` subtraction, which subtracts the two `x`
/// components with IEEE-754 `f32` subtraction.
#[verifier::external_body]
pub(crate) fn f32_sub(a: u32, b: u32) -> (r: u32)
    ensures
        r == f32_sub_of(a, b),
{
    let v: glam::Vec2 = bytemuck::cast([a, b]);
    let s: [u32; 2] = bytemuck::cast(v - glam::Vec2::splat(v.y));
    s[0]
}

/// Relies on glam's `Vec2` multiplication, which multiplies the two `x`
/// components with IEEE-754 `f32` multiplication.
#[verifier::external_body]
pub(crate) fn f32_mul(a: u32, b: u32) -> (r: u32)
    ensures
        r == f32_mul_of(a, b),
{
    let v: glam::Vec2 = bytemuck::cast([a, b]);
    let s: [u32; 2] = bytemuck::cast(v * glam::Vec2::splat(v.y));
    s[0]
}

/// Relies on glam's `Vec2` division, which divides the two `x`
/// components with IEEE-754 `f32` division. Division never panics: a
/// zero divisor yields an infinity or NaN.
#[verifier::external_body]
pub(crate) fn f32_div(a: u32, b: u32) -> (r: u32)
    ensures
        r == f32_div_of(a, b),
{
    let v: glam::Vec2 = bytemuck::cast([a, b]);
    let s: [u32; 2] = bytemuck::cast(v / glam::Vec2::splat(v.y));
    s[0]
}

/// Relies on glam's `UVec2::as_vec2`, which converts each `u32`
/// component to the nearest `f32`.
#[verifier::external_body]
pub(crate) fn u32_to_f32(n: u32) -> (r: u32)
    ensures
        r == f32_of_u32(n),
{
    let v = glam::UVec2::new(n, n).as_vec2();
    let s: [u32; 2] = bytemuck::cast(v);
    s[0]
}

} // verus!
