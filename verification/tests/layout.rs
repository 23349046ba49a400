use particles::bytes::{
    camera_uniform_to_bytes, drifts_to_bytes, indices_to_bytes, instances_from_bytes,
    instances_to_bytes, push_u32_le, u32_le_at, vertices_to_bytes, CAMERA_UNIFORM_BYTES,
    DRIFT_STRIDE, INSTANCE_STRIDE, VERTEX_STRIDE,
};
use particles::camera::CameraUniform;
use particles::mat::{QuatBits, Vec3Bits, Vec4Bits};
use particles::vertex::{quad_indices, quad_vertices, Instance};

fn sample_raws() -> Vec<particles::vertex::InstanceRaw> {
    let mut raws = Vec::new();
    for i in 0..3 {
        let q = glam::Quat::from_axis_angle(glam::Vec3::Z, 0.3 * i as f32);
        let p = Instance {
            position: Vec3Bits {
                x: (1.5 * i as f32).to_bits(),
                y: (-2.0 * i as f32).to_bits(),
                z: (7.0 + i as f32).to_bits(),
            },
            rotation: QuatBits {
                x: q.x.to_bits(),
                y: q.y.to_bits(),
                z: q.z.to_bits(),
                w: q.w.to_bits(),
            },
            color: Vec4Bits {
                x: (0.1 * i as f32).to_bits(),
                y: 0.5f32.to_bits(),
                z: 0.25f32.to_bits(),
                w: 1.0f32.to_bits(),
            },
        };
        raws.push(p.to_raw());
    }
    raws
}

#[test]
fn word_round_trip() {
    let mut out: Vec<u8> = Vec::new();
    push_u32_le(&mut out, 0xDEAD_BEEF);
    push_u32_le(&mut out, 7);
    assert_eq!(out, vec![0xEF, 0xBE, 0xAD, 0xDE, 7, 0, 0, 0]);
    assert_eq!(u32_le_at(&out, 0), 0xDEAD_BEEF);
    assert_eq!(u32_le_at(&out, 4), 7);
}

#[test]
fn instance_records_match_shader_layout() {
    let raws = sample_raws();
    let bytes = instances_to_bytes(&raws);
    assert_eq!(bytes.len(), INSTANCE_STRIDE * raws.len());
    // The bytes of each record are the sixteen model floats, then the
    // four color floats, little-endian, exactly as the shader reads
    // them.
    for (i, raw) in raws.iter().enumerate() {
        let mut expected: Vec<u8> = Vec::new();
        for k in 0..16 {
            expected.extend_from_slice(&f32::from_bits(raw.model.m[k]).to_le_bytes());
        }
        for c in [raw.color.x, raw.color.y, raw.color.z, raw.color.w] {
            expected.extend_from_slice(&f32::from_bits(c).to_le_bytes());
        }
        assert_eq!(&bytes[i * INSTANCE_STRIDE..(i + 1) * INSTANCE_STRIDE], &expected[..]);
    }
}

#[test]
fn read_back_parses_what_upload_wrote() {
    let raws = sample_raws();
    let bytes = instances_to_bytes(&raws);
    let parsed = instances_from_bytes(&bytes).expect("whole records");
    assert_eq!(parsed.len(), raws.len());
    for (a, b) in parsed.iter().zip(raws.iter()) {
        assert_eq!(a.model.m, b.model.m);
        assert_eq!(a.color, b.color);
    }
}

#[test]
fn read_back_rejects_torn_buffers() {
    let raws = sample_raws();
    let mut bytes = instances_to_bytes(&raws);
    bytes.pop();
    assert!(instances_from_bytes(&bytes).is_none());
    assert!(instances_from_bytes(&vec![0u8; 79]).is_none());
    assert!(instances_from_bytes(&Vec::new()).is_some());
}

#[test]
fn quad_geometry_and_strides() {
    let vertices = quad_vertices();
    assert_eq!(vertices.len(), 4);
    let corners = [
        ([-0.5f32, -0.5, 0.0], [0.0f32, 0.0]),
        ([0.5, -0.5, 0.0], [1.0, 0.0]),
        ([-0.5, 0.5, 0.0], [0.0, 1.0]),
        ([0.5, 0.5, 0.0], [1.0, 1.0]),
    ];
    for (v, (pos, uv)) in vertices.iter().zip(corners.iter()) {
        assert_eq!(v.position, pos.map(f32::to_bits));
        assert_eq!(v.vertex_position, uv.map(f32::to_bits));
    }
    let bytes = vertices_to_bytes(&vertices);
    assert_eq!(bytes.len(), VERTEX_STRIDE * 4);
    // Cross-check the byte image against a plain float serialization.
    let mut expected: Vec<u8> = Vec::new();
    for (pos, uv) in corners.iter() {
        for f in pos.iter().chain(uv.iter()) {
            expected.extend_from_slice(&f.to_le_bytes());
        }
    }
    assert_eq!(bytes, expected);
    let indices = quad_indices();
    assert_eq!(indices, vec![0, 1, 2, 3, 2, 1]);
    let index_bytes = indices_to_bytes(&indices);
    assert_eq!(index_bytes, vec![0, 0, 1, 0, 2, 0, 3, 0, 2, 0, 1, 0]);
}

#[test]
fn drift_records_match_kernel_layout() {
    let drifts = vec![
        particles::vertex::ParticleDrift {
            velocity: Vec3Bits {
                x: 0.1f32.to_bits(),
                y: (-0.05f32).to_bits(),
                z: 0.2f32.to_bits(),
            },
        },
        particles::vertex::ParticleDrift {
            velocity: Vec3Bits {
                x: 0.0f32.to_bits(),
                y: 0.0f32.to_bits(),
                z: 0.0f32.to_bits(),
            },
        },
    ];
    let bytes = drifts_to_bytes(&drifts);
    assert_eq!(bytes.len(), DRIFT_STRIDE * drifts.len());
    // Each record: the three velocity floats, then a zero padding word.
    let mut expected: Vec<u8> = Vec::new();
    for d in &drifts {
        for w in [d.velocity.x, d.velocity.y, d.velocity.z, 0u32] {
            expected.extend_from_slice(&w.to_le_bytes());
        }
    }
    assert_eq!(bytes, expected);
}

#[test]
fn attribute_offsets_fit_their_strides() {
    let vertex_offsets = particles::bytes::vertex_attribute_offsets();
    assert_eq!(vertex_offsets, vec![0, 12]);
    assert!(vertex_offsets.iter().all(|&o| o < VERTEX_STRIDE as u64));
    let instance_offsets = particles::bytes::instance_attribute_offsets();
    assert_eq!(instance_offsets, vec![0, 16, 32, 48, 64]);
    assert!(instance_offsets.iter().all(|&o| o < INSTANCE_STRIDE as u64));
}

#[test]
fn camera_uniform_byte_image() {
    let mut u = CameraUniform::new();
    let camera = particles::camera::Camera {
        eye: Vec3Bits { x: 0.0f32.to_bits(), y: 1.0f32.to_bits(), z: 500.0f32.to_bits() },
        target: Vec3Bits {
            x: 0.0f32.to_bits(),
            y: 0.0f32.to_bits(),
            z: (-100.0f32).to_bits(),
        },
        up: Vec3Bits { x: 0.0f32.to_bits(), y: 1.0f32.to_bits(), z: 0.0f32.to_bits() },
        aspect: 1.25f32.to_bits(),
        fovy: 20.0f32.to_bits(),
        znear: 0.0f32.to_bits(),
        zfar: 10000.0f32.to_bits(),
    };
    u.update_view_proj(&camera);
    let bytes = camera_uniform_to_bytes(&u);
    assert_eq!(bytes.len(), CAMERA_UNIFORM_BYTES);
    let mut expected: Vec<u8> = Vec::new();
    for k in 0..16 {
        expected.extend_from_slice(&f32::from_bits(u.view_proj.m[k]).to_le_bytes());
    }
    assert_eq!(bytes, expected);
}
