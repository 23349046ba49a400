use particles::mat::{QuatBits, Vec3Bits, Vec4Bits};
use particles::state::{AdvanceAction, SimulationMode, State};
use particles::vertex::{Instance, ParticleDrift};

fn bits3(x: f32, y: f32, z: f32) -> Vec3Bits {
    Vec3Bits { x: x.to_bits(), y: y.to_bits(), z: z.to_bits() }
}

fn quat_bits(q: glam::Quat) -> QuatBits {
    QuatBits { x: q.x.to_bits(), y: q.y.to_bits(), z: q.z.to_bits(), w: q.w.to_bits() }
}

fn color_bits(r: f32, g: f32, b: f32, a: f32) -> Vec4Bits {
    Vec4Bits { x: r.to_bits(), y: g.to_bits(), z: b.to_bits(), w: a.to_bits() }
}

fn plain_instance(x: f32, y: f32, z: f32) -> Instance {
    Instance {
        position: bits3(x, y, z),
        rotation: quat_bits(glam::Quat::IDENTITY),
        color: color_bits(0.3, 0.7, 0.9, 1.0),
    }
}

fn zero_drift() -> ParticleDrift {
    ParticleDrift { velocity: bits3(0.0, 0.0, 0.0) }
}

fn default_test_camera() -> particles::camera::Camera {
    particles::camera::Camera {
        eye: bits3(0.0, 1.0, 5000.0),
        target: bits3(0.0, 0.0, -100.0),
        up: bits3(0.0, 1.0, 0.0),
        aspect: (1500.0f32 / 900.0f32).to_bits(),
        fovy: 20.0f32.to_bits(),
        znear: 0.0f32.to_bits(),
        zfar: 10000.0f32.to_bits(),
    }
}

#[test]
fn lengths_fixed_after_init_and_frames() {
    let mut s = State::new(64, 800, 600, SimulationMode::CpuParallel, 256);
    assert_eq!(s.instances.len(), 64);
    assert_eq!(s.drifts.len(), 64);
    assert_eq!(s.instances_raw.len(), 64);
    for _ in 0..3 {
        let action = s.advance();
        assert!(matches!(action, AdvanceAction::UploadInstances));
        assert_eq!(s.instances.len(), 64);
        assert_eq!(s.drifts.len(), 64);
        assert_eq!(s.instances_raw.len(), 64);
    }
}

#[test]
fn new_uses_default_camera_bits() {
    let s = State::new(4, 1500, 900, SimulationMode::GpuCompute, 256);
    assert_eq!(s.camera.eye.x, 0.0f32.to_bits());
    assert_eq!(s.camera.eye.y, 1.0f32.to_bits());
    assert_eq!(s.camera.eye.z, 5000.0f32.to_bits());
    assert_eq!(s.camera.target.z, (-100.0f32).to_bits());
    assert_eq!(s.camera.up.y, 1.0f32.to_bits());
    assert_eq!(s.camera.aspect, (1500.0f32 / 900.0f32).to_bits());
    assert_eq!(s.camera.fovy, 20.0f32.to_bits());
    assert_eq!(s.camera.znear, 0.0f32.to_bits());
    assert_eq!(s.camera.zfar, 10000.0f32.to_bits());
    assert!(matches!(s.mode, SimulationMode::GpuCompute));
}

#[test]
fn zero_drift_advance_is_identity() {
    let instances = vec![
        plain_instance(1.0, 2.0, 3.0),
        plain_instance(-4.5, 0.25, 9.0),
        plain_instance(0.0, -1.0, 2.5),
    ];
    let drifts = vec![zero_drift(), zero_drift(), zero_drift()];
    let mut s = State::from_parts(
        instances,
        drifts,
        default_test_camera(),
        800,
        600,
        SimulationMode::CpuParallel,
        256,
    );
    let before: Vec<[u32; 16]> = s.instances_raw.iter().map(|r| r.model.m).collect();
    let before_pos: Vec<Vec3Bits> = s.instances.iter().map(|i| i.position).collect();
    let action = s.advance();
    assert!(matches!(action, AdvanceAction::UploadInstances));
    for i in 0..3 {
        assert_eq!(s.instances[i].position, before_pos[i]);
        assert_eq!(s.instances_raw[i].model.m, before[i]);
    }
}

#[test]
fn cpu_advance_moves_by_drift() {
    let instances = vec![plain_instance(1.0, -2.0, 0.5)];
    let drifts = vec![ParticleDrift { velocity: bits3(0.5, 0.25, -1.0) }];
    let mut s = State::from_parts(
        instances,
        drifts,
        default_test_camera(),
        800,
        600,
        SimulationMode::CpuParallel,
        256,
    );
    s.advance();
    assert_eq!(s.instances[0].position, bits3(1.5, -1.75, -0.5));
    // The mirror's translation column follows the new position.
    assert_eq!(s.instances_raw[0].model.m[12], 1.5f32.to_bits());
    assert_eq!(s.instances_raw[0].model.m[13], (-1.75f32).to_bits());
    assert_eq!(s.instances_raw[0].model.m[14], (-0.5f32).to_bits());
}

#[test]
fn gpu_advance_leaves_host_state_and_covers_population() {
    let instances = vec![
        plain_instance(1.0, 2.0, 3.0),
        plain_instance(4.0, 5.0, 6.0),
    ];
    let drifts = vec![zero_drift(), zero_drift()];
    let mut s = State::from_parts(
        instances,
        drifts,
        default_test_camera(),
        800,
        600,
        SimulationMode::GpuCompute,
        256,
    );
    let before_pos = s.instances[1].position;
    match s.advance() {
        AdvanceAction::DispatchCompute { x, y } => {
            assert!(x as u64 * y as u64 * 256 >= 2);
            assert!(x >= 1 && y >= 1);
        }
        AdvanceAction::UploadInstances => panic!("compute backend must dispatch"),
    }
    assert_eq!(s.instances[1].position, before_pos);
}

#[test]
fn switch_reconciles_positions_from_readback() {
    let instances = vec![
        plain_instance(1.0, 2.0, 3.0),
        plain_instance(4.0, 5.0, 6.0),
    ];
    let drifts = vec![zero_drift(), zero_drift()];
    let mut s = State::from_parts(
        instances,
        drifts,
        default_test_camera(),
        800,
        600,
        SimulationMode::GpuCompute,
        256,
    );
    let staging = s.begin_switch();
    assert_eq!(staging, Some(160));
    assert!(s.switch_pending);
    // A second request while one is pending is refused.
    assert_eq!(s.begin_switch(), None);
    // What the device would hand back: the same particles, moved.
    let moved = vec![plain_instance(1.5, 2.5, 3.5), plain_instance(-4.0, 0.0, 6.25)];
    let readback: Vec<particles::vertex::InstanceRaw> =
        moved.iter().map(|p| p.to_raw()).collect();
    let expected: Vec<[u32; 16]> = readback.iter().map(|r| r.model.m).collect();
    s.complete_switch(readback);
    assert!(matches!(s.mode, SimulationMode::CpuParallel));
    assert!(!s.switch_pending);
    assert_eq!(s.instances[0].position, bits3(1.5, 2.5, 3.5));
    assert_eq!(s.instances[1].position, bits3(-4.0, 0.0, 6.25));
    for i in 0..2 {
        assert_eq!(s.instances_raw[i].model.m, expected[i]);
        // Every reconciled position equals its model's translation column.
        assert_eq!(s.instances[i].position.x, s.instances_raw[i].model.m[12]);
        assert_eq!(s.instances[i].position.y, s.instances_raw[i].model.m[13]);
        assert_eq!(s.instances[i].position.z, s.instances_raw[i].model.m[14]);
    }
}

#[test]
fn switch_is_refused_under_cpu_backend_and_cancel_keeps_mode() {
    let instances = vec![plain_instance(1.0, 2.0, 3.0)];
    let drifts = vec![zero_drift()];
    let mut s = State::from_parts(
        instances,
        drifts,
        default_test_camera(),
        800,
        600,
        SimulationMode::CpuParallel,
        256,
    );
    assert_eq!(s.begin_switch(), None);
    let mut g = State::new(8, 800, 600, SimulationMode::GpuCompute, 64);
    assert!(g.begin_switch().is_some());
    g.cancel_switch();
    assert!(!g.switch_pending);
    assert!(matches!(g.mode, SimulationMode::GpuCompute));
}

#[test]
fn end_to_end_four_particles_one_frame() {
    let positions = [
        (0.0f32, 0.0f32, 0.0f32),
        (1.0, 0.0, 0.0),
        (0.0, 1.0, 0.0),
        (1.0, 1.0, 0.0),
    ];
    let instances: Vec<Instance> =
        positions.iter().map(|&(x, y, z)| plain_instance(x, y, z)).collect();
    let drifts = vec![zero_drift(), zero_drift(), zero_drift(), zero_drift()];
    let camera = particles::camera::Camera {
        eye: bits3(0.0, 1.0, 1000.0),
        target: bits3(0.0, 0.0, -100.0),
        up: bits3(0.0, 1.0, 0.0),
        aspect: (1500.0f32 / 900.0f32).to_bits(),
        fovy: 20.0f32.to_bits(),
        znear: 0.0f32.to_bits(),
        zfar: 10000.0f32.to_bits(),
    };
    let mut s = State::from_parts(
        instances,
        drifts,
        camera,
        1500,
        900,
        SimulationMode::CpuParallel,
        256,
    );
    let action = s.advance();
    assert!(matches!(action, AdvanceAction::UploadInstances));
    for (i, &(x, y, z)) in positions.iter().enumerate() {
        assert_eq!(s.instances[i].position, bits3(x, y, z));
    }
    s.refresh_camera();
    // The uniform must match the closed-form look-at / perspective
    // composition for these parameters.
    let view = glam::Mat4::look_at_rh(
        glam::Vec3::new(0.0, 1.0, 1000.0),
        glam::Vec3::new(0.0, 0.0, -100.0),
        glam::Vec3::Y,
    );
    let proj = glam::Mat4::perspective_rh_gl(
        20.0f32 * std::f32::consts::PI / 180.0,
        1500.0 / 900.0,
        0.0,
        10000.0,
    );
    let expected = (proj * view).to_cols_array();
    for k in 0..16 {
        let got = f32::from_bits(s.camera_uniform.view_proj.m[k]);
        assert_eq!(got.to_bits(), expected[k].to_bits());
        assert!((got - expected[k]).abs() <= 1e-5 * expected[k].abs().max(1.0));
    }
}

#[test]
fn frame_time_average_of_constant_samples() {
    let mut s = State::new(2, 800, 600, SimulationMode::CpuParallel, 256);
    for _ in 0..25 {
        assert_eq!(s.frame_finished(7000), 7000);
    }
    // The buffer has wrapped: still exactly the constant.
    for _ in 0..5 {
        assert_eq!(s.frame_finished(7000), 7000);
    }
}

#[test]
fn frame_time_average_mixes_exactly() {
    let mut s = State::new(2, 800, 600, SimulationMode::CpuParallel, 256);
    assert_eq!(s.frame_finished(10), 10);
    assert_eq!(s.frame_finished(20), 15);
    assert_eq!(s.frame_finished(30), 20);
}

#[test]
fn generated_population_is_well_formed() {
    let instances = particles::sample::generate_instances(50);
    assert_eq!(instances.len(), 50);
    let identity = quat_bits(glam::Quat::IDENTITY);
    for p in &instances {
        assert_eq!(p.rotation, identity);
        assert_eq!(p.color.w, 1.0f32.to_bits());
        let x = f32::from_bits(p.position.x);
        let y = f32::from_bits(p.position.y);
        let z = f32::from_bits(p.position.z);
        assert!((-425.0..425.0).contains(&x));
        assert!((-410.0..410.0).contains(&y));
        assert!((-100.0..900.0).contains(&z));
    }
    let drifts = particles::sample::generate_drifts(50);
    assert_eq!(drifts.len(), 50);
    for d in &drifts {
        let v = glam::Vec3::new(
            f32::from_bits(d.velocity.x),
            f32::from_bits(d.velocity.y),
            f32::from_bits(d.velocity.z),
        );
        assert!((v.length() - 0.2).abs() < 1e-3);
    }
}

#[test]
fn sampling_formulas_match_reference_arithmetic() {
    let r: [f32; 6] = [0.25, 0.75, 0.5, 0.1, 0.9, 0.33];
    let p = particles::sample::make_instance(
        r[0].to_bits(),
        r[1].to_bits(),
        r[2].to_bits(),
        r[3].to_bits(),
        r[4].to_bits(),
        r[5].to_bits(),
    );
    let x = (r[0] - 0.5) * 850.0;
    let y = (r[1] - 0.5) * 820.0;
    let z = (r[2] - 0.1) * 1000.0;
    assert_eq!(p.position, bits3(x, y, z));
    assert_eq!(p.color.x, (0.12 + r[3] / 4.0 + (x / 850.0 + 0.5) / 2.0).to_bits());
    assert_eq!(p.color.y, (0.75 + r[4] / 5.0).to_bits());
    assert_eq!(p.color.z, r[5].to_bits());
    let d = particles::sample::make_drift(r[0].to_bits(), r[1].to_bits(), r[2].to_bits());
    let expected = glam::Vec3::new(r[0] - 0.5, r[1] - 0.5, r[2] - 0.5).normalize() / 5.0;
    assert_eq!(d.velocity, bits3(expected.x, expected.y, expected.z));
}

#[test]
fn dispatch_grid_covers_two_million() {
    let (x, y) = particles::state::dispatch_grid(2_000_000, 256);
    assert!(x as u64 * y as u64 * 256 >= 2_000_000);
    assert!(x <= 10_000 && y <= 65_535);
    // ceil(2_000_000 / 256) groups fit in one row.
    assert_eq!((x, y), (7813, 1));
}

#[test]
fn dispatch_grid_matches_reference_geometry() {
    // 1.5 million single-invocation groups: a 10000 x 150 grid.
    assert_eq!(particles::state::dispatch_grid(1_500_000, 1), (10_000, 150));
    let (x, y) = particles::state::dispatch_grid(1_500_000, 256);
    assert!(x as u64 * y as u64 * 256 >= 1_500_000);
    // Never a whole spare row.
    assert!((x as u64) * ((y - 1) as u64) * 256 < 1_500_000);
}

#[test]
fn capacity_respects_binding_limits() {
    assert_eq!(particles::state::max_particle_capacity(134_217_728, 65_536), 819);
    assert_eq!(particles::state::max_particle_capacity(800, 1600), 10);
}
