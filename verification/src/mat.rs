//! Vectors, quaternions and column-major 4x4 matrices, carried as `u32`
//! bit patterns of their `f32` entries. The matrix algebra is done by
//! glam; each operation's result is named, and the few bit-exact facts
//! the crate needs (translation columns, adding a zero vector) are
//! stated where glam's source shows them plainly. glam's debug
//! assertions (on normalized inputs and the like) are compiled out
//! unless its `glam-assert` feature is chosen, which it is not here,
//! so none of these calls panic.
use vstd::prelude::*;

use crate::fbits::{f32_add_of, zero_add_stable, ONE_BITS, ZERO_BITS};

verus! {

/// A 3-component vector of `f32` bit patterns.
#[derive(Clone, Copy, PartialEq, Eq, Structural, Debug)]
pub struct Vec3Bits {
    pub x: u32,
    pub y: u32,
    pub z: u32,
}

impl View for Vec3Bits {
    type V = Seq<u32>;

    open spec fn view(&self) -> Seq<u32> {
        seq![self.x, self.y, self.z]
    }
}

/// A 4-component vector of `f32` bit patterns.
#[derive(Clone, Copy, PartialEq, Eq, Structural, Debug)]
pub struct Vec4Bits {
    pub x: u32,
    pub y: u32,
    pub z: u32,
    pub w: u32,
}

impl View for Vec4Bits {
    type V = Seq<u32>;

    open spec fn view(&self) -> Seq<u32> {
        seq![self.x, self.y, self.z, self.w]
    }
}

/// A quaternion of `f32` bit patterns, `(x, y, z, w)` as glam stores it.
#[derive(Clone, Copy, PartialEq, Eq, Structural, Debug)]
pub struct QuatBits {
    pub x: u32,
    pub y: u32,
    pub z: u32,
    pub w: u32,
}

impl View for QuatBits {
    type V = Seq<u32>;

    open spec fn view(&self) -> Seq<u32> {
        seq![self.x, self.y, self.z, self.w]
    }
}

/// A column-major 4x4 matrix of `f32` bit patterns: entries 0..4 are the
/// x axis, 4..8 the y axis, 8..12 the z axis and 12..16 the w axis, in
/// the memory order glam's `Mat4` uses.
#[derive(Clone, Copy, Debug)]
pub struct Mat4Bits {
    pub m: [u32; 16],
}

impl View for Mat4Bits {
    type V = Seq<u32>;

    open spec fn view(&self) -> Seq<u32> {
        self.m@
    }
}

/// The bit patterns of the matrix that translates by `t`: identity
/// columns, with `(t, 1.0)` as the w axis.
pub open spec fn translation_seq(t: Seq<u32>) -> Seq<u32>
    recommends
        t.len() == 3,
{
    seq![
        ONE_BITS, ZERO_BITS, ZERO_BITS, ZERO_BITS,
        ZERO_BITS, ONE_BITS, ZERO_BITS, ZERO_BITS,
        ZERO_BITS, ZERO_BITS, ONE_BITS, ZERO_BITS,
        t[0], t[1], t[2], ONE_BITS,
    ]
}

/// The matrix translates by its w axis: the first three columns are
/// exactly the identity's and the lower-right entry is one, so only
/// the translation itself is left free.
pub open spec fn is_translation_mat(a: Seq<u32>) -> bool {
    &&& a.len() == 16
    &&& a[0] == ONE_BITS
    &&& a[1] == ZERO_BITS
    &&& a[2] == ZERO_BITS
    &&& a[3] == ZERO_BITS
    &&& a[4] == ZERO_BITS
    &&& a[5] == ONE_BITS
    &&& a[6] == ZERO_BITS
    &&& a[7] == ZERO_BITS
    &&& a[8] == ZERO_BITS
    &&& a[9] == ZERO_BITS
    &&& a[10] == ONE_BITS
    &&& a[11] == ZERO_BITS
    &&& a[15] == ONE_BITS
}

/// The w axis is exactly `(0, 0, 0, 1)`, as in every affine transform
/// glam builds from a rotation or translation.
pub open spec fn col3_is_unit_w(a: Seq<u32>) -> bool {
    &&& a.len() == 16
    &&& a[12] == ZERO_BITS
    &&& a[13] == ZERO_BITS
    &&& a[14] == ZERO_BITS
    &&& a[15] == ONE_BITS
}

pub uninterp spec fn quat_mat_of(q: Seq<u32>) -> Seq<u32>;

pub uninterp spec fn mat_mul_of(a: Seq<u32>, b: Seq<u32>) -> Seq<u32>;

pub uninterp spec fn look_at_rh_of(eye: Seq<u32>, target: Seq<u32>, up: Seq<u32>) -> Seq<u32>;

pub uninterp spec fn perspective_rh_gl_of(fovy: u32, aspect: u32, znear: u32, zfar: u32) -> Seq<
    u32,
>;

pub uninterp spec fn normalize_of(v: Seq<u32>) -> Seq<u32>;

/// Relies on glam's `Vec3` addition, which is component-wise IEEE-754
/// `f32` addition. The conditional clauses are the IEEE identity
/// `x + (+0.0) == x`, bit-for-bit for every non-NaN `x` other than
/// `-0.0`.
#[verifier::external_body]
pub(crate) fn vec3_add(a: &Vec3Bits, b: &Vec3Bits) -> (r: Vec3Bits)
    ensures
        r.x == f32_add_of(a.x, b.x),
        r.y == f32_add_of(a.y, b.y),
        r.z == f32_add_of(a.z, b.z),
        b.x == ZERO_BITS && zero_add_stable(a.x) ==> r.x == a.x,
        b.y == ZERO_BITS && zero_add_stable(a.y) ==> r.y == a.y,
        b.z == ZERO_BITS && zero_add_stable(a.z) ==> r.z == a.z,
{
    let va: glam::Vec3 = bytemuck::cast([a.x, a.y, a.z]);
    let vb: glam::Vec3 = bytemuck::cast([b.x, b.y, b.z]);
    let s: [u32; 3] = bytemuck::cast(va + vb);
    Vec3Bits { x: s[0], y: s[1], z: s[2] }
}

/// Relies on glam's `Vec3::normalize`, whose result depends on the
/// components alone.
#[verifier::external_body]
pub(crate) fn vec3_normalize(v: &Vec3Bits) -> (r: Vec3Bits)
    ensures
        r@ == normalize_of(v@),
{
    let vv: glam::Vec3 = bytemuck::cast([v.x, v.y, v.z]);
    let s: [u32; 3] = bytemuck::cast(vv.normalize());
    Vec3Bits { x: s[0], y: s[1], z: s[2] }
}

/// Relies on glam's `Mat4::from_translation`, whose result is exactly
/// the identity columns with `(t, 1.0)` as the w axis.
#[verifier::external_body]
pub(crate) fn mat_from_translation(t: &Vec3Bits) -> (r: Mat4Bits)
    ensures
        r@ == translation_seq(t@),
{
    let v: glam::Vec3 = bytemuck::cast([t.x, t.y, t.z]);
    Mat4Bits { m: bytemuck::cast(glam::Mat4::from_translation(v)) }
}

/// Relies on glam's `Mat4::from_quat`, whose result depends on the
/// quaternion alone and whose w axis is exactly `(0, 0, 0, 1)`.
#[verifier::external_body]
pub(crate) fn mat_from_quat(q: &QuatBits) -> (r: Mat4Bits)
    ensures
        r@ == quat_mat_of(q@),
        col3_is_unit_w(r@),
{
    let v: glam::Quat = bytemuck::cast([q.x, q.y, q.z, q.w]);
    Mat4Bits { m: bytemuck::cast(glam::Mat4::from_quat(v)) }
}

/// Relies on glam's `Mat4` multiplication: each result column is the
/// linear combination of `a`'s columns by the matching column of `b`.
/// The conditional clause is the translation-column case: when `a` is
/// a translation matrix (identity columns, lower-right entry one) and
/// `b`'s w axis is `(0, 0, 0, 1)`, the result's w axis is the sum of
/// zero products and `a`'s w axis times one, which returns `a`'s w
/// axis bit-for-bit for non-NaN entries other than `-0.0`, and one as
/// its last entry.
#[verifier::external_body]
pub(crate) fn mat_mul(a: &Mat4Bits, b: &Mat4Bits) -> (r: Mat4Bits)
    ensures
        r@ == mat_mul_of(a@, b@),
        is_translation_mat(a@) && col3_is_unit_w(b@) && zero_add_stable(a@[12])
            && zero_add_stable(a@[13]) && zero_add_stable(a@[14]) ==> {
            &&& r@[12] == a@[12]
            &&& r@[13] == a@[13]
            &&& r@[14] == a@[14]
            &&& r@[15] == ONE_BITS
        },
{
    let ma: glam::Mat4 = bytemuck::cast(a.m);
    let mb: glam::Mat4 = bytemuck::cast(b.m);
    Mat4Bits { m: bytemuck::cast(ma * mb) }
}

/// Relies on glam's `Mat4::look_at_rh`, whose result depends on the
/// three vectors alone.
#[verifier::external_body]
pub(crate) fn look_at_rh(eye: &Vec3Bits, target: &Vec3Bits, up: &Vec3Bits) -> (r: Mat4Bits)
    ensures
        r@ == look_at_rh_of(eye@, target@, up@),
{
    let e: glam::Vec3 = bytemuck::cast([eye.x, eye.y, eye.z]);
    let t: glam::Vec3 = bytemuck::cast([target.x, target.y, target.z]);
    let u: glam::Vec3 = bytemuck::cast([up.x, up.y, up.z]);
    Mat4Bits { m: bytemuck::cast(glam::Mat4::look_at_rh(e, t, u)) }
}

/// Relies on glam's `Mat4::perspective_rh_gl`, whose result depends on
/// the four scalars alone.
#[verifier::external_body]
pub(crate) fn perspective_rh_gl(fovy: u32, aspect: u32, znear: u32, zfar: u32) -> (r: Mat4Bits)
    ensures
        r@ == perspective_rh_gl_of(fovy, aspect, znear, zfar),
{
    let v: glam::Vec4 = bytemuck::cast([fovy, aspect, znear, zfar]);
    Mat4Bits { m: bytemuck::cast(glam::Mat4::perspective_rh_gl(v.x, v.y, v.z, v.w)) }
}

} // verus!
