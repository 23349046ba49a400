use particles::camera::{Camera, CameraUniform};
use particles::mat::{QuatBits, Vec3Bits, Vec4Bits};
use particles::state::{SimulationMode, State};
use particles::vertex::Instance;

fn bits3(x: f32, y: f32, z: f32) -> Vec3Bits {
    Vec3Bits { x: x.to_bits(), y: y.to_bits(), z: z.to_bits() }
}

fn test_camera() -> Camera {
    Camera {
        eye: bits3(0.0, 1.0, 5000.0),
        target: bits3(0.0, 0.0, -100.0),
        up: bits3(0.0, 1.0, 0.0),
        aspect: (1500.0f32 / 900.0f32).to_bits(),
        fovy: 20.0f32.to_bits(),
        znear: 0.0f32.to_bits(),
        zfar: 10000.0f32.to_bits(),
    }
}

fn glam_view_proj(camera: &Camera) -> [f32; 16] {
    let view = glam::Mat4::look_at_rh(
        glam::Vec3::new(
            f32::from_bits(camera.eye.x),
            f32::from_bits(camera.eye.y),
            f32::from_bits(camera.eye.z),
        ),
        glam::Vec3::new(
            f32::from_bits(camera.target.x),
            f32::from_bits(camera.target.y),
            f32::from_bits(camera.target.z),
        ),
        glam::Vec3::new(
            f32::from_bits(camera.up.x),
            f32::from_bits(camera.up.y),
            f32::from_bits(camera.up.z),
        ),
    );
    let proj = glam::Mat4::perspective_rh_gl(
        f32::from_bits(camera.fovy) * std::f32::consts::PI / 180.0,
        f32::from_bits(camera.aspect),
        f32::from_bits(camera.znear),
        f32::from_bits(camera.zfar),
    );
    (proj * view).to_cols_array()
}

#[test]
fn view_projection_is_pure() {
    let camera = test_camera();
    let a = camera.build_view_projection_matrix();
    let b = camera.build_view_projection_matrix();
    assert_eq!(a.m, b.m);
}

#[test]
fn view_projection_matches_reference_composition() {
    let camera = test_camera();
    let got = camera.build_view_projection_matrix();
    let expected = glam_view_proj(&camera);
    for k in 0..16 {
        assert_eq!(got.m[k], expected[k].to_bits());
    }
}

#[test]
fn resize_zero_area_is_a_no_op() {
    let mut s = State::new(2, 800, 600, SimulationMode::CpuParallel, 256);
    let aspect = s.camera.aspect;
    s.resize(0, 480);
    assert_eq!(s.camera.aspect, aspect);
    assert_eq!((s.width, s.height), (800, 600));
    s.resize(640, 0);
    assert_eq!(s.camera.aspect, aspect);
    assert_eq!((s.width, s.height), (800, 600));
    s.resize(0, 0);
    assert_eq!(s.camera.aspect, aspect);
    assert_eq!((s.width, s.height), (800, 600));
}

#[test]
fn resize_updates_aspect_and_size() {
    let mut s = State::new(2, 800, 600, SimulationMode::CpuParallel, 256);
    s.resize(1024, 768);
    assert_eq!((s.width, s.height), (1024, 768));
    assert_eq!(s.camera.aspect, (1024.0f32 / 768.0f32).to_bits());
    let mut camera = test_camera();
    let before = camera;
    camera.apply_resize(0, 99);
    assert_eq!(camera, before);
    camera.apply_resize(320, 240);
    assert_eq!(camera.aspect, (320.0f32 / 240.0f32).to_bits());
    assert_eq!(camera.eye, before.eye);
    assert_eq!(camera.fovy, before.fovy);
}

#[test]
fn scroll_dollies_along_depth_axis() {
    let mut camera = test_camera();
    camera.apply_scroll(125.0f32.to_bits());
    let z = 5000.0f32 + 125.0 / 50.0;
    assert_eq!(camera.eye, bits3(0.0, 1.0, z));
    let eye = glam::Vec3::new(0.0, 1.0, z);
    let target = eye + glam::Vec3::new(0.0, 0.0, -1.0);
    assert_eq!(camera.target, bits3(target.x, target.y, target.z));
}

#[test]
fn camera_uniform_starts_as_identity() {
    let u = CameraUniform::new();
    assert_eq!(u.view_proj.m, glam::Mat4::IDENTITY.to_cols_array().map(f32::to_bits));
}

#[test]
fn camera_uniform_follows_camera() {
    let camera = test_camera();
    let mut u = CameraUniform::new();
    u.update_view_proj(&camera);
    let expected = glam_view_proj(&camera);
    for k in 0..16 {
        assert_eq!(u.view_proj.m[k], expected[k].to_bits());
    }
}

#[test]
fn to_raw_matches_reference_model_matrix() {
    let q = glam::Quat::from_axis_angle(glam::Vec3::Z, 0.7);
    let p = Instance {
        position: bits3(1.5, -2.25, 3.0),
        rotation: QuatBits {
            x: q.x.to_bits(),
            y: q.y.to_bits(),
            z: q.z.to_bits(),
            w: q.w.to_bits(),
        },
        color: Vec4Bits {
            x: 0.1f32.to_bits(),
            y: 0.2f32.to_bits(),
            z: 0.3f32.to_bits(),
            w: 1.0f32.to_bits(),
        },
    };
    let raw = p.to_raw();
    let expected = (glam::Mat4::from_translation(glam::Vec3::new(1.5, -2.25, 3.0))
        * glam::Mat4::from_quat(q))
    .to_cols_array();
    for k in 0..16 {
        assert_eq!(raw.model.m[k], expected[k].to_bits());
    }
    assert_eq!(raw.color, p.color);
}

#[test]
fn translation_survives_flattening_round_trip() {
    let q = glam::Quat::from_axis_angle(glam::Vec3::new(0.0, 1.0, 0.0), 1.2);
    let p = Instance {
        position: bits3(12.5, -0.125, 3000.0),
        rotation: QuatBits {
            x: q.x.to_bits(),
            y: q.y.to_bits(),
            z: q.z.to_bits(),
            w: q.w.to_bits(),
        },
        color: Vec4Bits {
            x: 0.0f32.to_bits(),
            y: 0.0f32.to_bits(),
            z: 0.0f32.to_bits(),
            w: 1.0f32.to_bits(),
        },
    };
    let raw = p.to_raw();
    let back = particles::vertex::raw_position(&raw);
    assert_eq!(back, p.position);
    // And, a fortiori, within the floating-point tolerance.
    assert!((f32::from_bits(back.x) - 12.5).abs() < 1e-5);
    assert!((f32::from_bits(back.y) - (-0.125)).abs() < 1e-5);
    assert!((f32::from_bits(back.z) - 3000.0).abs() < 1e-5);
}
