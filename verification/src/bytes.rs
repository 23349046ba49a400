//! The byte layout shared with the GPU: little-endian serialization of
//! vertices, instances and the camera uniform, with the strides and
//! attribute offsets the vertex streams declare. The host mirror and
//! the shader must agree on these bytes exactly.
use vstd::prelude::*;

use crate::camera::CameraUniform;
use crate::vertex::{InstanceRaw, ParticleDrift, Vertex};

verus! {

/// Bytes per vertex of quad geometry: three position and two texture
/// floats.
pub const VERTEX_STRIDE: usize = 20;

/// Bytes per instance: sixteen model-matrix floats and four color
/// floats.
pub const INSTANCE_STRIDE: usize = 80;

/// Bytes of the camera uniform: one 4x4 matrix.
pub const CAMERA_UNIFORM_BYTES: usize = 64;

/// Bytes per drift record in the compute kernel's storage buffer: a
/// three-float velocity padded to sixteen bytes.
pub const DRIFT_STRIDE: usize = 16;

/// The little-endian bytes of one 32-bit word.
pub open spec fn le_bytes_of_u32(x: u32) -> Seq<u8> {
    seq![
        (x & 0xff) as u8,
        ((x >> 8) & 0xff) as u8,
        ((x >> 16) & 0xff) as u8,
        ((x >> 24) & 0xff) as u8,
    ]
}

/// The word encoded by four little-endian bytes.
pub open spec fn u32_of_le_bytes(b: Seq<u8>) -> u32
    recommends
        b.len() == 4,
{
    (b[0] as u32) | ((b[1] as u32) << 8) | ((b[2] as u32) << 16) | ((b[3] as u32) << 24)
}

/// Decoding the little-endian bytes of a word returns the word.
pub proof fn lemma_le_bytes_roundtrip(x: u32)
    ensures
        u32_of_le_bytes(le_bytes_of_u32(x)) == x,
{
    assert(((x & 0xff) as u8 as u32) | ((((x >> 8) & 0xff) as u8 as u32) << 8) | ((((x >> 16)
        & 0xff) as u8 as u32) << 16) | ((((x >> 24) & 0xff) as u8 as u32) << 24) == x)
        by (bit_vector);
}

/// The little-endian bytes of a sequence of words, in order.
pub open spec fn le_bytes_of_words(s: Seq<u32>) -> Seq<u8>
    decreases s.len(),
{
    if s.len() == 0 {
        Seq::empty()
    } else {
        le_bytes_of_words(s.drop_last()) + le_bytes_of_u32(s.last())
    }
}

/// Serializing words yields four bytes per word.
pub proof fn lemma_le_bytes_of_words_len(s: Seq<u32>)
    ensures
        le_bytes_of_words(s).len() == 4 * s.len(),
    decreases s.len(),
{
    if s.len() > 0 {
        lemma_le_bytes_of_words_len(s.drop_last());
    }
}

/// Word `k` of a serialized word sequence decodes back to the word:
/// the layout loses nothing.
pub proof fn lemma_le_bytes_of_words_index(s: Seq<u32>, k: int)
    requires
        0 <= k < s.len(),
    ensures
        u32_of_le_bytes(le_bytes_of_words(s).subrange(4 * k, 4 * k + 4)) == s[k],
    decreases s.len(),
{
    lemma_le_bytes_of_words_len(s.drop_last());
    if k == s.len() - 1 {
        assert(le_bytes_of_words(s).subrange(4 * k, 4 * k + 4) =~= le_bytes_of_u32(s.last()));
        lemma_le_bytes_roundtrip(s.last());
    } else {
        lemma_le_bytes_of_words_index(s.drop_last(), k);
        assert(le_bytes_of_words(s).subrange(4 * k, 4 * k + 4) =~= le_bytes_of_words(
            s.drop_last(),
        ).subrange(4 * k, 4 * k + 4));
    }
}

/// Serializing one more word appends exactly its four bytes.
proof fn lemma_words_snoc(s: Seq<u32>, x: u32)
    ensures
        le_bytes_of_words(s.push(x)) == le_bytes_of_words(s) + le_bytes_of_u32(x),
{
    assert(s.push(x).drop_last() =~= s);
    assert(s.push(x).last() == x);
}

/// Appends one word's little-endian bytes.
pub fn push_u32_le(out: &mut Vec<u8>, x: u32)
    ensures
        final(out)@ == old(out)@ + le_bytes_of_u32(x),
{
    proof {
        assert((x & 0xff) < 256 && ((x >> 8) & 0xff) < 256 && ((x >> 16) & 0xff) < 256 && ((x
            >> 24) & 0xff) < 256) by (bit_vector);
    }
    out.push((x & 0xff) as u8);
    out.push(((x >> 8) & 0xff) as u8);
    out.push(((x >> 16) & 0xff) as u8);
    out.push(((x >> 24) & 0xff) as u8);
    proof {
        assert(out@ =~= old(out)@ + le_bytes_of_u32(x));
    }
}

/// Reads the word at byte offset `off`.
pub fn u32_le_at(b: &Vec<u8>, off: usize) -> (r: u32)
    requires
        off + 4 <= b@.len(),
    ensures
        r == u32_of_le_bytes(b@.subrange(off as int, off as int + 4)),
{
    let blen = b.len();
    proof {
        assert(off + 4 <= blen);
    }
    let b0 = b[off];
    let b1 = b[off + 1];
    let b2 = b[off + 2];
    let b3 = b[off + 3];
    let ghost sub = b@.subrange(off as int, off as int + 4);
    proof {
        assert(sub[0] == b0 && sub[1] == b1 && sub[2] == b2 && sub[3] == b3);
    }
    (b0 as u32) | ((b1 as u32) << 8) | ((b2 as u32) << 16) | ((b3 as u32) << 24)
}

/// The words of one instance record: the sixteen model-matrix entries,
/// then the four color channels.
pub open spec fn raw_words_of(r: InstanceRaw) -> Seq<u32> {
    r.model@ + seq![r.color.x, r.color.y, r.color.z, r.color.w]
}

/// The eighty bytes of one instance record.
pub open spec fn raw_record_bytes(r: InstanceRaw) -> Seq<u8> {
    le_bytes_of_words(raw_words_of(r))
}

/// Appends one instance's record bytes.
pub fn push_instance_raw(out: &mut Vec<u8>, r: &InstanceRaw)
    ensures
        final(out)@ == old(out)@ + raw_record_bytes(*r),
        final(out)@.len() == old(out)@.len() + INSTANCE_STRIDE,
{
    let ghost words = raw_words_of(*r);
    let mut k: usize = 0;
    while k < 16
        invariant
            k <= 16,
            out@ == old(out)@ + le_bytes_of_words(words.subrange(0, k as int)),
            words == raw_words_of(*r),
        decreases 16 - k,
    {
        proof {
            assert(words.subrange(0, k as int + 1).drop_last() =~= words.subrange(0, k as int));
            assert(words[k as int] == r.model@[k as int]);
        }
        push_u32_le(out, r.model.m[k]);
        k = k + 1;
    }
    proof {
        assert(words.len() == 20);
        assert(words[16] == r.color.x && words[17] == r.color.y && words[18] == r.color.z
            && words[19] == r.color.w);
        assert(words.subrange(0, 17) =~= words.subrange(0, 16).push(words[16]));
        assert(words.subrange(0, 18) =~= words.subrange(0, 17).push(words[17]));
        assert(words.subrange(0, 19) =~= words.subrange(0, 18).push(words[18]));
        assert(words.subrange(0, 20) =~= words.subrange(0, 19).push(words[19]));
        lemma_words_snoc(words.subrange(0, 16), words[16]);
        lemma_words_snoc(words.subrange(0, 17), words[17]);
        lemma_words_snoc(words.subrange(0, 18), words[18]);
        lemma_words_snoc(words.subrange(0, 19), words[19]);
    }
    push_u32_le(out, r.color.x);
    push_u32_le(out, r.color.y);
    push_u32_le(out, r.color.z);
    push_u32_le(out, r.color.w);
    proof {
        assert(words.subrange(0, 20) =~= words);
        lemma_le_bytes_of_words_len(words);
        assert(out@ =~= old(out)@ + raw_record_bytes(*r));
    }
}

/// The concatenated records of a whole instance list, in index order.
pub open spec fn records_bytes_of(v: Seq<InstanceRaw>) -> Seq<u8>
    decreases v.len(),
{
    if v.len() == 0 {
        Seq::empty()
    } else {
        records_bytes_of(v.drop_last()) + raw_record_bytes(v.last())
    }
}

/// A serialized instance list is eighty bytes per instance.
pub proof fn lemma_records_bytes_len(v: Seq<InstanceRaw>)
    ensures
        records_bytes_of(v).len() == INSTANCE_STRIDE * v.len(),
    decreases v.len(),
{
    if v.len() > 0 {
        lemma_records_bytes_len(v.drop_last());
        lemma_le_bytes_of_words_len(raw_words_of(v.last()));
    }
}

/// Serializes the whole host mirror for one contiguous upload.
pub fn instances_to_bytes(v: &Vec<InstanceRaw>) -> (out: Vec<u8>)
    ensures
        out@ == records_bytes_of(v@),
        out@.len() == INSTANCE_STRIDE * v@.len(),
{
    let mut out: Vec<u8> = Vec::new();
    let mut i: usize = 0;
    while i < v.len()
        invariant
            i <= v@.len(),
            out@ == records_bytes_of(v@.subrange(0, i as int)),
        decreases v@.len() - i,
    {
        proof {
            assert(v@.subrange(0, i as int + 1).drop_last() =~= v@.subrange(0, i as int));
        }
        push_instance_raw(&mut out, &v[i]);
        i = i + 1;
    }
    proof {
        assert(v@.subrange(0, v@.len() as int) =~= v@);
        lemma_records_bytes_len(v@);
    }
    out
}

/// Parses one instance record at byte offset `off`: the inverse of
/// `push_instance_raw`, word by word.
pub fn instance_raw_at(b: &Vec<u8>, off: usize) -> (r: InstanceRaw)
    requires
        off + INSTANCE_STRIDE <= b@.len(),
    ensures
        forall|k: int|
            0 <= k < 20 ==> #[trigger] raw_words_of(r)[k] == u32_of_le_bytes(
                b@.subrange(off + 4 * k, off + 4 * k + 4),
            ),
{
    let blen = b.len();
    let mut m: [u32; 16] = [0u32; 16];
    let mut k: usize = 0;
    while k < 16
        invariant
            k <= 16,
            blen == b@.len(),
            off + INSTANCE_STRIDE <= blen,
            forall|j: int|
                0 <= j < k ==> #[trigger] m@[j] == u32_of_le_bytes(
                    b@.subrange(off + 4 * j, off + 4 * j + 4),
                ),
        decreases 16 - k,
    {
        m[k] = u32_le_at(b, off + 4 * k);
        k = k + 1;
    }
    let color = crate::mat::Vec4Bits {
        x: u32_le_at(b, off + 64),
        y: u32_le_at(b, off + 68),
        z: u32_le_at(b, off + 72),
        w: u32_le_at(b, off + 76),
    };
    let r = InstanceRaw { model: crate::mat::Mat4Bits { m }, color };
    proof {
        assert forall|k2: int| 0 <= k2 < 20 implies #[trigger] raw_words_of(r)[k2]
            == u32_of_le_bytes(b@.subrange(off + 4 * k2, off + 4 * k2 + 4)) by {
            if k2 < 16 {
                assert(raw_words_of(r)[k2] == m@[k2]);
            }
        }
    }
    r
}

/// Parses a whole read-back buffer. Succeeds exactly when the length
/// is a whole number of records; each parsed record decodes the bytes
/// of its eighty-byte slot.
pub fn instances_from_bytes(b: &Vec<u8>) -> (r: Option<Vec<InstanceRaw>>)
    ensures
        r is Some <==> b@.len() as int % (INSTANCE_STRIDE as int) == 0,
        r is Some ==> {
            &&& r->0@.len() * INSTANCE_STRIDE == b@.len()
            &&& forall|i: int, k: int|
                0 <= i < r->0@.len() && 0 <= k < 20 ==> #[trigger] raw_words_of(r->0@[i])[k]
                    == u32_of_le_bytes(
                    b@.subrange(INSTANCE_STRIDE * i + 4 * k, INSTANCE_STRIDE * i + 4 * k + 4),
                )
        },
{
    if b.len() % INSTANCE_STRIDE != 0 {
        return None;
    }
    let blen = b.len();
    let n = b.len() / INSTANCE_STRIDE;
    let mut out: Vec<InstanceRaw> = Vec::new();
    let mut i: usize = 0;
    proof {
        assert(n * INSTANCE_STRIDE == b@.len()) by (nonlinear_arith)
            requires
                n == b@.len() as int / 80,
                b@.len() as int % 80 == 0,
        ;
    }
    while i < n
        invariant
            i <= n,
            blen == b@.len(),
            n * INSTANCE_STRIDE == blen,
            out@.len() == i,
            forall|j: int, k: int|
                0 <= j < i && 0 <= k < 20 ==> #[trigger] raw_words_of(out@[j])[k]
                    == u32_of_le_bytes(
                    b@.subrange(INSTANCE_STRIDE * j + 4 * k, INSTANCE_STRIDE * j + 4 * k + 4),
                ),
        decreases n - i,
    {
        proof {
            assert(i * INSTANCE_STRIDE + INSTANCE_STRIDE <= n * INSTANCE_STRIDE)
                by (nonlinear_arith)
                requires
                    i < n,
            ;
        }
        let rec = instance_raw_at(b, i * INSTANCE_STRIDE);
        out.push(rec);
        i = i + 1;
    }
    Some(out)
}

/// Word `k` of record `i` of a serialized instance list decodes back
/// to that record's word: the upload image and a read-back of it agree
/// on every entry of every instance.
pub proof fn lemma_records_bytes_index(v: Seq<InstanceRaw>, i: int, k: int)
    requires
        0 <= i < v.len(),
        0 <= k < 20,
    ensures
        u32_of_le_bytes(
            records_bytes_of(v).subrange(
                INSTANCE_STRIDE * i + 4 * k,
                INSTANCE_STRIDE * i + 4 * k + 4,
            ),
        ) == raw_words_of(v[i])[k],
    decreases v.len(),
{
    lemma_records_bytes_len(v.drop_last());
    lemma_le_bytes_of_words_len(raw_words_of(v.last()));
    if i == v.len() - 1 {
        assert(records_bytes_of(v).subrange(
            INSTANCE_STRIDE * i + 4 * k,
            INSTANCE_STRIDE * i + 4 * k + 4,
        ) =~= raw_record_bytes(v.last()).subrange(4 * k, 4 * k + 4));
        lemma_le_bytes_of_words_index(raw_words_of(v.last()), k);
        assert(v.last() == v[i]);
    } else {
        lemma_records_bytes_index(v.drop_last(), i, k);
        assert(records_bytes_of(v).subrange(
            INSTANCE_STRIDE * i + 4 * k,
            INSTANCE_STRIDE * i + 4 * k + 4,
        ) =~= records_bytes_of(v.drop_last()).subrange(
            INSTANCE_STRIDE * i + 4 * k,
            INSTANCE_STRIDE * i + 4 * k + 4,
        ));
        assert(v.drop_last()[i] == v[i]);
    }
}

/// Byte offsets of the two per-vertex attributes in their stream:
/// position, then texture coordinates.
pub fn vertex_attribute_offsets() -> (r: Vec<u64>)
    ensures
        r@ == seq![0u64, 12u64],
{
    let mut r: Vec<u64> = Vec::new();
    r.push(0);
    r.push(12);
    proof {
        assert(r@ =~= seq![0u64, 12u64]);
    }
    r
}

/// Byte offsets of the five per-instance attributes in their stream:
/// the four model-matrix columns, then the color.
pub fn instance_attribute_offsets() -> (r: Vec<u64>)
    ensures
        r@ == seq![0u64, 16u64, 32u64, 48u64, 64u64],
{
    let mut r: Vec<u64> = Vec::new();
    r.push(0);
    r.push(16);
    r.push(32);
    r.push(48);
    r.push(64);
    proof {
        assert(r@ =~= seq![0u64, 16u64, 32u64, 48u64, 64u64]);
    }
    r
}

/// The words of one drift record: the three velocity floats, then a
/// zero padding word.
pub open spec fn drift_words_of(d: ParticleDrift) -> Seq<u32> {
    seq![d.velocity.x, d.velocity.y, d.velocity.z, 0u32]
}

/// Serializes the drift velocities for the compute kernel's storage
/// buffer, sixteen bytes per particle.
pub fn drifts_to_bytes(v: &Vec<ParticleDrift>) -> (out: Vec<u8>)
    ensures
        out@.len() == DRIFT_STRIDE * v@.len(),
        forall|i: int, k: int|
            0 <= i < v@.len() && 0 <= k < 4 ==> u32_of_le_bytes(
                out@.subrange(DRIFT_STRIDE * i + 4 * k, DRIFT_STRIDE * i + 4 * k + 4),
            ) == #[trigger] drift_words_of(v@[i])[k],
{
    let mut out: Vec<u8> = Vec::new();
    let mut i: usize = 0;
    while i < v.len()
        invariant
            i <= v@.len(),
            out@.len() == DRIFT_STRIDE * i,
            forall|j: int, k: int|
                0 <= j < i && 0 <= k < 4 ==> u32_of_le_bytes(
                    out@.subrange(DRIFT_STRIDE * j + 4 * k, DRIFT_STRIDE * j + 4 * k + 4),
                ) == #[trigger] drift_words_of(v@[j])[k],
        decreases v@.len() - i,
    {
        let ghost before = out@;
        let d = v[i];
        push_u32_le(&mut out, d.velocity.x);
        push_u32_le(&mut out, d.velocity.y);
        push_u32_le(&mut out, d.velocity.z);
        push_u32_le(&mut out, 0);
        proof {
            let words = drift_words_of(v@[i as int]);
            assert forall|k: int| 0 <= k < 4 implies u32_of_le_bytes(
                out@.subrange(DRIFT_STRIDE * i + 4 * k, DRIFT_STRIDE * i + 4 * k + 4),
            ) == #[trigger] words[k] by {
                assert(out@.subrange(DRIFT_STRIDE * i + 4 * k, DRIFT_STRIDE * i + 4 * k + 4)
                    =~= le_bytes_of_u32(words[k]));
                lemma_le_bytes_roundtrip(words[k]);
            }
            assert forall|j: int, k: int| 0 <= j < i && 0 <= k < 4 implies u32_of_le_bytes(
                out@.subrange(DRIFT_STRIDE * j + 4 * k, DRIFT_STRIDE * j + 4 * k + 4),
            ) == #[trigger] drift_words_of(v@[j])[k] by {
                assert(out@.subrange(DRIFT_STRIDE * j + 4 * k, DRIFT_STRIDE * j + 4 * k + 4)
                    =~= before.subrange(DRIFT_STRIDE * j + 4 * k, DRIFT_STRIDE * j + 4 * k + 4));
            }
        }
        i = i + 1;
    }
    out
}

/// The words of the quad vertex record: three position floats, then
/// two texture floats.
pub open spec fn vertex_words_of(v: Vertex) -> Seq<u32> {
    v.position@ + v.vertex_position@
}

/// Serializes the quad geometry, twenty bytes per vertex.
pub fn vertices_to_bytes(v: &Vec<Vertex>) -> (out: Vec<u8>)
    ensures
        out@.len() == VERTEX_STRIDE * v@.len(),
        forall|i: int, k: int|
            0 <= i < v@.len() && 0 <= k < 5 ==> u32_of_le_bytes(
                out@.subrange(VERTEX_STRIDE * i + 4 * k, VERTEX_STRIDE * i + 4 * k + 4),
            ) == #[trigger] vertex_words_of(v@[i])[k],
{
    let mut out: Vec<u8> = Vec::new();
    let mut i: usize = 0;
    while i < v.len()
        invariant
            i <= v@.len(),
            out@.len() == VERTEX_STRIDE * i,
            forall|j: int, k: int|
                0 <= j < i && 0 <= k < 5 ==> u32_of_le_bytes(
                    out@.subrange(VERTEX_STRIDE * j + 4 * k, VERTEX_STRIDE * j + 4 * k + 4),
                ) == #[trigger] vertex_words_of(v@[j])[k],
        decreases v@.len() - i,
    {
        let ghost before = out@;
        let vertex = v[i];
        push_u32_le(&mut out, vertex.position[0]);
        push_u32_le(&mut out, vertex.position[1]);
        push_u32_le(&mut out, vertex.position[2]);
        push_u32_le(&mut out, vertex.vertex_position[0]);
        push_u32_le(&mut out, vertex.vertex_position[1]);
        proof {
            let words = vertex_words_of(v@[i as int]);
            assert forall|k: int| 0 <= k < 5 implies u32_of_le_bytes(
                out@.subrange(VERTEX_STRIDE * i + 4 * k, VERTEX_STRIDE * i + 4 * k + 4),
            ) == #[trigger] words[k] by {
                assert(out@.subrange(VERTEX_STRIDE * i + 4 * k, VERTEX_STRIDE * i + 4 * k + 4)
                    =~= le_bytes_of_u32(words[k]));
                lemma_le_bytes_roundtrip(words[k]);
            }
            assert forall|j: int, k: int| 0 <= j < i && 0 <= k < 5 implies u32_of_le_bytes(
                out@.subrange(VERTEX_STRIDE * j + 4 * k, VERTEX_STRIDE * j + 4 * k + 4),
            ) == #[trigger] vertex_words_of(v@[j])[k] by {
                assert(out@.subrange(VERTEX_STRIDE * j + 4 * k, VERTEX_STRIDE * j + 4 * k + 4)
                    =~= before.subrange(VERTEX_STRIDE * j + 4 * k, VERTEX_STRIDE * j + 4 * k + 4));
            }
        }
        i = i + 1;
    }
    out
}

/// Serializes the index list, two little-endian bytes per index.
pub fn indices_to_bytes(v: &Vec<u16>) -> (out: Vec<u8>)
    ensures
        out@.len() == 2 * v@.len(),
        forall|i: int|
            0 <= i < v@.len() ==> out@[2 * i] == (#[trigger] v@[i] & 0xff) as u8 && out@[2 * i + 1]
                == ((v@[i] >> 8) & 0xff) as u8,
{
    let mut out: Vec<u8> = Vec::new();
    let mut i: usize = 0;
    while i < v.len()
        invariant
            i <= v@.len(),
            out@.len() == 2 * i,
            forall|j: int|
                0 <= j < i ==> out@[2 * j] == (#[trigger] v@[j] & 0xff) as u8 && out@[2 * j + 1]
                    == ((v@[j] >> 8) & 0xff) as u8,
        decreases v@.len() - i,
    {
        let x = v[i];
        proof {
            assert((x & 0xff) < 256 && ((x >> 8) & 0xff) < 256) by (bit_vector);
        }
        out.push((x & 0xff) as u8);
        out.push(((x >> 8) & 0xff) as u8);
        i = i + 1;
    }
    out
}

/// Serializes the camera uniform: the sixty-four bytes the uniform
/// buffer holds.
pub fn camera_uniform_to_bytes(u: &CameraUniform) -> (out: Vec<u8>)
    ensures
        out@ == le_bytes_of_words(u.view_proj@),
        out@.len() == CAMERA_UNIFORM_BYTES,
{
    let ghost words = u.view_proj@;
    let mut out: Vec<u8> = Vec::new();
    let mut k: usize = 0;
    while k < 16
        invariant
            k <= 16,
            out@ == le_bytes_of_words(words.subrange(0, k as int)),
            words == u.view_proj@,
        decreases 16 - k,
    {
        proof {
            assert(words.subrange(0, k as int + 1).drop_last() =~= words.subrange(0, k as int));
        }
        push_u32_le(&mut out, u.view_proj.m[k]);
        k = k + 1;
    }
    proof {
        assert(words.subrange(0, 16) =~= words);
        lemma_le_bytes_of_words_len(words);
    }
    out
}

} // verus!
