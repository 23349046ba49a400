//! The per-frame core: the particle population and its GPU mirror, the
//! active simulation backend, the backend-switch protocol, and the
//! dispatch geometry of the compute path. The caller performs the
//! device work an `AdvanceAction` asks for; everything decided here is
//! a verified function of the state.
use vstd::arithmetic::div_mod::{lemma_fundamental_div_mod, lemma_mod_bound};
use vstd::prelude::*;

use crate::bytes::INSTANCE_STRIDE;
use crate::camera::{aspect_of, spec_view_proj, Camera, CameraUniform};
use crate::fbits::{f32_add_of, f32_div, u32_to_f32, ONE_BITS, ZERO_BITS};
use crate::mat::{vec3_add, QuatBits, Vec3Bits};
use crate::sample::{generate_drifts, generate_instances};
use crate::timer::{sum_of, FrameTimer, SAMPLE_CAPACITY};
use crate::vertex::{is_raw_of, position_stable, raw_position, spec_raw_translation, Instance,
    InstanceRaw, ParticleDrift};

verus! {

/// The largest population the dispatch geometry can cover: with one
/// invocation per group, the grid below reaches 10000 * 65535 groups.
pub const MAX_PARTICLE_COUNT: usize = 655_350_000;

/// The widest compute grid used along its first dimension.
pub const MAX_DISPATCH_X: u32 = 10_000;

/// The largest count of workgroups along one grid dimension a dispatch
/// may name.
pub const MAX_DISPATCH_DIM: u32 = 65_535;

/// Bit pattern of `5000.0f32`, the eye's initial depth.
pub const EYE_DEPTH_BITS: u32 = 0x459C_4000;

/// Bit pattern of `-100.0f32`, the target's initial depth.
pub const TARGET_DEPTH_BITS: u32 = 0xC2C8_0000;

/// Bit pattern of `20.0f32`, the vertical field of view in degrees.
pub const FOVY_BITS: u32 = 0x41A0_0000;

/// Bit pattern of `10000.0f32`, the far clip distance.
pub const ZFAR_BITS: u32 = 0x461C_4000;

/// Which backend owns write-authority over the instance mirror this
/// frame.
#[derive(Clone, Copy, PartialEq, Eq, Structural, Debug)]
pub enum SimulationMode {
    CpuParallel,
    GpuCompute,
}

/// What the caller must do on the device after `advance`: upload the
/// freshly written host mirror, or record a compute pass over the
/// given workgroup grid.
#[derive(Clone, Copy, PartialEq, Eq, Structural, Debug)]
pub enum AdvanceAction {
    UploadInstances,
    DispatchCompute { x: u32, y: u32 },
}

/// Component-wise IEEE addition of two bit-pattern vectors.
pub open spec fn vadd_spec(a: Vec3Bits, b: Vec3Bits) -> Vec3Bits {
    Vec3Bits { x: f32_add_of(a.x, b.x), y: f32_add_of(a.y, b.y), z: f32_add_of(a.z, b.z) }
}

/// One simulation step of one particle: its position moves by its
/// drift; rotation and color stay.
pub open spec fn stepped(p: Instance, d: ParticleDrift) -> Instance {
    Instance { position: vadd_spec(p.position, d.velocity), ..p }
}

/// Chooses a workgroup grid that covers `n` particles: at least `n`
/// invocations in all, never a whole spare row of groups, and both
/// dimensions within the device's per-dimension bound.
pub fn dispatch_grid(n: u32, workgroup_size: u32) -> (r: (u32, u32))
    requires
        1 <= n,
        n <= MAX_PARTICLE_COUNT as u32,
        1 <= workgroup_size,
    ensures
        1 <= r.0 <= MAX_DISPATCH_X,
        1 <= r.1 <= MAX_DISPATCH_DIM,
        (r.0 as int) * (r.1 as int) * (workgroup_size as int) >= n,
        (r.0 as int) * ((r.1 as int) - 1) * (workgroup_size as int) < n,
{
    let groups = (n - 1) / workgroup_size + 1;
    proof {
        lemma_fundamental_div_mod((n - 1) as int, workgroup_size as int);
        lemma_mod_bound((n - 1) as int, workgroup_size as int);
        assert(groups >= 1);
        assert((groups - 1) * (workgroup_size as int) <= n - 1) by (nonlinear_arith)
            requires
                groups - 1 == (n - 1) as int / (workgroup_size as int),
                (n - 1) as int == (workgroup_size as int) * (groups - 1) + (n - 1) as int % (
                workgroup_size as int),
                0 <= (n - 1) as int % (workgroup_size as int),
        ;
        assert(groups * (workgroup_size as int) >= n) by (nonlinear_arith)
            requires
                groups - 1 == (n - 1) as int / (workgroup_size as int),
                (n - 1) as int == (workgroup_size as int) * (groups - 1) + (n - 1) as int % (
                workgroup_size as int),
                (n - 1) as int % (workgroup_size as int) < workgroup_size as int,
                workgroup_size >= 1,
        ;
        assert(groups <= n) by (nonlinear_arith)
            requires
                (groups - 1) * (workgroup_size as int) <= n - 1,
                workgroup_size >= 1,
                groups >= 1,
        ;
    }
    let x = if groups < MAX_DISPATCH_X {
        groups
    } else {
        MAX_DISPATCH_X
    };
    let y = (groups - 1) / x + 1;
    proof {
        lemma_fundamental_div_mod((groups - 1) as int, x as int);
        lemma_mod_bound((groups - 1) as int, x as int);
        assert((y - 1) * (x as int) <= groups - 1 && groups <= (y as int) * (x as int))
            by (nonlinear_arith)
            requires
                y - 1 == (groups - 1) as int / (x as int),
                (groups - 1) as int == (x as int) * (y - 1) + (groups - 1) as int % (x as int),
                0 <= (groups - 1) as int % (x as int) < x as int,
                x >= 1,
        ;
        assert(y <= MAX_DISPATCH_DIM) by (nonlinear_arith)
            requires
                (y - 1) * (x as int) <= groups - 1,
                groups <= MAX_PARTICLE_COUNT as u32,
                x == groups || x as int == MAX_DISPATCH_X as int,
                x >= 1,
                y >= 1,
        ;
        assert((x as int) * (y as int) * (workgroup_size as int) >= n) by (nonlinear_arith)
            requires
                groups <= (y as int) * (x as int),
                groups * (workgroup_size as int) >= n,
                workgroup_size >= 1,
        ;
        assert((x as int) * ((y as int) - 1) * (workgroup_size as int) < n) by (nonlinear_arith)
            requires
                (y - 1) * (x as int) <= groups - 1,
                (groups - 1) * (workgroup_size as int) <= n - 1,
                workgroup_size >= 1,
        ;
    }
    (x, y)
}

/// The largest population whose instance mirror fits both of the
/// device's storage and uniform binding-size limits.
pub fn max_particle_capacity(max_storage_binding: u32, max_uniform_binding: u32) -> (r: u32)
    ensures
        r == (if max_storage_binding < max_uniform_binding {
            max_storage_binding as int
        } else {
            max_uniform_binding as int
        }) / (INSTANCE_STRIDE as int),
{
    let limit = if max_storage_binding < max_uniform_binding {
        max_storage_binding
    } else {
        max_uniform_binding
    };
    limit / (INSTANCE_STRIDE as u32)
}

/// Flattens every particle into a fresh host mirror.
fn raw_mirror_of(instances: &Vec<Instance>) -> (r: Vec<InstanceRaw>)
    ensures
        r@.len() == instances@.len(),
        forall|i: int|
            0 <= i < instances@.len() ==> is_raw_of(#[trigger] r@[i], instances@[i]),
{
    let mut r: Vec<InstanceRaw> = Vec::new();
    let mut i: usize = 0;
    while i < instances.len()
        invariant
            i <= instances@.len(),
            r@.len() == i,
            forall|j: int| 0 <= j < i ==> is_raw_of(#[trigger] r@[j], instances@[j]),
        decreases instances@.len() - i,
    {
        r.push(instances[i].to_raw());
        i = i + 1;
    }
    r
}

/// The whole per-frame state the simulation owns: the logical
/// particles, their fixed drifts, the flattened GPU mirror, the camera
/// and its uniform, the active backend, the pending-switch guard, the
/// surface size and the frame-time buffer.
pub struct State {
    pub instances: Vec<Instance>,
    pub drifts: Vec<ParticleDrift>,
    pub instances_raw: Vec<InstanceRaw>,
    pub camera: Camera,
    pub camera_uniform: CameraUniform,
    pub mode: SimulationMode,
    pub switch_pending: bool,
    pub width: u32,
    pub height: u32,
    pub workgroup_size: u32,
    pub timer: FrameTimer,
}

/// The camera the population starts with: eye one unit up and far out
/// on the depth axis, looking down the negative depth axis.
pub open spec fn default_camera(width: u32, height: u32) -> Camera {
    Camera {
        eye: Vec3Bits { x: ZERO_BITS, y: ONE_BITS, z: EYE_DEPTH_BITS },
        target: Vec3Bits { x: ZERO_BITS, y: ZERO_BITS, z: TARGET_DEPTH_BITS },
        up: Vec3Bits { x: ZERO_BITS, y: ONE_BITS, z: ZERO_BITS },
        aspect: aspect_of(width, height),
        fovy: FOVY_BITS,
        znear: ZERO_BITS,
        zfar: ZFAR_BITS,
    }
}

impl State {
    /// The three containers stay the same non-zero length for the
    /// process lifetime, the grid bound holds, the timer is sound, and
    /// a pending switch can only be waiting on the compute backend.
    pub open spec fn wf(&self) -> bool {
        &&& self.instances@.len() == self.drifts@.len()
        &&& self.instances@.len() == self.instances_raw@.len()
        &&& 1 <= self.instances@.len() <= MAX_PARTICLE_COUNT
        &&& 1 <= self.workgroup_size
        &&& self.timer.wf()
        &&& self.switch_pending ==> self.mode is GpuCompute
    }

    /// The host mirror is exactly the flattened form of the logical
    /// particles: holds whenever the CPU backend owns the mirror.
    pub open spec fn cpu_consistent(&self) -> bool {
        forall|i: int|
            0 <= i < self.instances@.len() ==> is_raw_of(
                #[trigger] self.instances_raw@[i],
                self.instances@[i],
            )
    }

    /// Every drift velocity is the zero vector.
    pub open spec fn zero_drifts(&self) -> bool {
        forall|i: int|
            0 <= i < self.drifts@.len() ==> (#[trigger] self.drifts@[i]).velocity == (Vec3Bits {
                x: ZERO_BITS,
                y: ZERO_BITS,
                z: ZERO_BITS,
            })
    }

    /// Every particle position has only components that adding zero
    /// keeps bit-identical.
    pub open spec fn positions_stable(&self) -> bool {
        forall|i: int|
            0 <= i < self.instances@.len() ==> position_stable(
                (#[trigger] self.instances@[i]).position,
            )
    }

    /// Builds a population of `n` pseudo-random particles with the
    /// default camera, in the given starting mode. Every particle
    /// starts with the identity rotation and an opaque color, and the
    /// camera uniform already holds the camera's view-projection.
    pub fn new(
        n: usize,
        width: u32,
        height: u32,
        mode: SimulationMode,
        workgroup_size: u32,
    ) -> (r: State)
        requires
            1 <= n <= MAX_PARTICLE_COUNT,
            1 <= width,
            1 <= height,
            1 <= workgroup_size,
        ensures
            r.wf(),
            r.cpu_consistent(),
            r.instances@.len() == n,
            forall|i: int|
                0 <= i < n ==> (#[trigger] r.instances@[i]).rotation == (QuatBits {
                    x: ZERO_BITS,
                    y: ZERO_BITS,
                    z: ZERO_BITS,
                    w: ONE_BITS,
                }) && r.instances@[i].color.w == ONE_BITS,
            r.camera == default_camera(width, height),
            r.camera_uniform.view_proj@ == spec_view_proj(default_camera(width, height)),
            r.mode == mode,
            !r.switch_pending,
            r.width == width,
            r.height == height,
            r.workgroup_size == workgroup_size,
            r.timer.samples@.len() == 0,
    {
        let instances = generate_instances(n);
        let drifts = generate_drifts(n);
        let instances_raw = raw_mirror_of(&instances);
        let camera = Camera {
            eye: Vec3Bits { x: ZERO_BITS, y: ONE_BITS, z: EYE_DEPTH_BITS },
            target: Vec3Bits { x: ZERO_BITS, y: ZERO_BITS, z: TARGET_DEPTH_BITS },
            up: Vec3Bits { x: ZERO_BITS, y: ONE_BITS, z: ZERO_BITS },
            aspect: f32_div(u32_to_f32(width), u32_to_f32(height)),
            fovy: FOVY_BITS,
            znear: ZERO_BITS,
            zfar: ZFAR_BITS,
        };
        let mut camera_uniform = CameraUniform::new();
        camera_uniform.update_view_proj(&camera);
        State {
            instances,
            drifts,
            instances_raw,
            camera,
            camera_uniform,
            mode,
            switch_pending: false,
            width,
            height,
            workgroup_size,
            timer: FrameTimer::new(),
        }
    }

    /// Builds a population from explicit particles and drifts, for a
    /// caller that owns its own initial conditions.
    pub fn from_parts(
        instances: Vec<Instance>,
        drifts: Vec<ParticleDrift>,
        camera: Camera,
        width: u32,
        height: u32,
        mode: SimulationMode,
        workgroup_size: u32,
    ) -> (r: State)
        requires
            instances@.len() == drifts@.len(),
            1 <= instances@.len() <= MAX_PARTICLE_COUNT,
            1 <= workgroup_size,
        ensures
            r.wf(),
            r.cpu_consistent(),
            r.instances@ == instances@,
            r.drifts@ == drifts@,
            forall|i: int|
                0 <= i < instances@.len() ==> is_raw_of(
                    #[trigger] r.instances_raw@[i],
                    instances@[i],
                ),
            r.camera == camera,
            r.camera_uniform.view_proj@ == spec_view_proj(camera),
            r.mode == mode,
            !r.switch_pending,
            r.width == width,
            r.height == height,
            r.workgroup_size == workgroup_size,
            r.timer.samples@.len() == 0,
    {
        let instances_raw = raw_mirror_of(&instances);
        let mut camera_uniform = CameraUniform::new();
        camera_uniform.update_view_proj(&camera);
        State {
            instances,
            drifts,
            instances_raw,
            camera,
            camera_uniform,
            mode,
            switch_pending: false,
            width,
            height,
            workgroup_size,
            timer: FrameTimer::new(),
        }
    }

    /// Advances the simulation one frame. Under the CPU backend every
    /// particle moves by its drift and the host mirror is rewritten,
    /// ready for one contiguous upload; under the compute backend
    /// nothing host-side changes and the caller is told the workgroup
    /// grid to dispatch. With all-zero drifts and stable positions, a
    /// consistent mirror is left bit-identical.
    pub fn advance(&mut self) -> (r: AdvanceAction)
        requires
            old(self).wf(),
        ensures
            final(self).wf(),
            final(self).drifts@ == old(self).drifts@,
            final(self).camera == old(self).camera,
            final(self).camera_uniform == old(self).camera_uniform,
            final(self).mode == old(self).mode,
            final(self).switch_pending == old(self).switch_pending,
            final(self).width == old(self).width,
            final(self).height == old(self).height,
            final(self).workgroup_size == old(self).workgroup_size,
            final(self).timer == old(self).timer,
            final(self).instances@.len() == old(self).instances@.len(),
            old(self).mode is GpuCompute ==> {
                &&& *final(self) == *old(self)
                &&& (r matches AdvanceAction::DispatchCompute { x, y } && 1 <= x <= MAX_DISPATCH_X
                    && 1 <= y <= MAX_DISPATCH_DIM && (x as int) * (y as int) * (
                old(self).workgroup_size as int) >= old(self).instances@.len())
            },
            old(self).mode is CpuParallel ==> {
                &&& r == AdvanceAction::UploadInstances
                &&& forall|i: int|
                    0 <= i < old(self).instances@.len() ==> #[trigger] final(self).instances@[i]
                        == stepped(old(self).instances@[i], old(self).drifts@[i])
                &&& forall|i: int|
                    0 <= i < old(self).instances@.len() ==> is_raw_of(
                        #[trigger] final(self).instances_raw@[i],
                        final(self).instances@[i],
                    )
                &&& final(self).cpu_consistent()
            },
            old(self).mode is CpuParallel && old(self).zero_drifts()
                && old(self).positions_stable() ==> forall|i: int|
                0 <= i < old(self).instances@.len()
                    ==> #[trigger] final(self).instances@[i] == old(self).instances@[i],
            old(self).mode is CpuParallel && old(self).zero_drifts()
                && old(self).positions_stable() && old(self).cpu_consistent() ==> forall|i: int|
                0 <= i < old(self).instances@.len()
                    ==> (#[trigger] final(self).instances_raw@[i]).model@
                        == old(self).instances_raw@[i].model@
                    && final(self).instances_raw@[i].color
                        == old(self).instances_raw@[i].color,
    {
        match self.mode {
            SimulationMode::GpuCompute => {
                let n32 = self.instances.len() as u32;
                let grid = dispatch_grid(n32, self.workgroup_size);
                AdvanceAction::DispatchCompute { x: grid.0, y: grid.1 }
            },
            SimulationMode::CpuParallel => {
                let n = self.instances.len();
                let mut new_instances: Vec<Instance> = Vec::new();
                let mut new_raw: Vec<InstanceRaw> = Vec::new();
                let mut i: usize = 0;
                while i < n
                    invariant
                        i <= n,
                        n == old(self).instances@.len(),
                        self.instances@ == old(self).instances@,
                        self.drifts@ == old(self).drifts@,
                        old(self).wf(),
                        new_instances@.len() == i,
                        new_raw@.len() == i,
                        forall|j: int|
                            0 <= j < i ==> #[trigger] new_instances@[j] == stepped(
                                old(self).instances@[j],
                                old(self).drifts@[j],
                            ),
                        forall|j: int|
                            0 <= j < i ==> is_raw_of(
                                #[trigger] new_raw@[j],
                                new_instances@[j],
                            ),
                        forall|j: int|
                            0 <= j < i && old(self).zero_drifts()
                                && old(self).positions_stable()
                                ==> #[trigger] new_instances@[j] == old(self).instances@[j],
                    decreases n - i,
                {
                    let p = self.instances[i];
                    let d = self.drifts[i];
                    let np = Instance {
                        position: vec3_add(&p.position, &d.velocity),
                        rotation: p.rotation,
                        color: p.color,
                    };
                    let nr = np.to_raw();
                    new_instances.push(np);
                    new_raw.push(nr);
                    i = i + 1;
                }
                self.instances = new_instances;
                self.instances_raw = new_raw;
                proof {
                    if old(self).zero_drifts() && old(self).positions_stable() && old(self).cpu_consistent() {
                        assert forall|i2: int| 0 <= i2 < old(self).instances@.len() implies (
                        #[trigger] self.instances_raw@[i2]).model@
                            == old(self).instances_raw@[i2].model@ && self.instances_raw@[i2].color
                            == old(self).instances_raw@[i2].color by {
                            assert(is_raw_of(self.instances_raw@[i2], self.instances@[i2]));
                            assert(is_raw_of(old(self).instances_raw@[i2], old(self).instances@[i2]));
                            assert(self.instances@[i2] == old(self).instances@[i2]);
                        }
                    }
                }
                AdvanceAction::UploadInstances
            },
        }
    }

    /// Begins the compute-to-CPU switch: under the compute backend,
    /// and with no switch already pending, the caller is told the byte
    /// length of the staging buffer to copy the instance buffer into
    /// and map; until the read-back arrives, the compute backend keeps
    /// write-authority. Otherwise nothing changes.
    pub fn begin_switch(&mut self) -> (r: Option<u64>)
        requires
            old(self).wf(),
        ensures
            final(self).wf(),
            old(self).mode is GpuCompute && !old(self).switch_pending ==> {
                &&& r == Some((old(self).instances@.len() * INSTANCE_STRIDE) as u64)
                &&& *final(self) == (State { switch_pending: true, ..*old(self) })
            },
            !(old(self).mode is GpuCompute && !old(self).switch_pending) ==> r is None && *final(self) == *old(self),
    {
        match self.mode {
            SimulationMode::GpuCompute => {
                if self.switch_pending {
                    None
                } else {
                    self.switch_pending = true;
                    Some((self.instances.len() as u64) * (INSTANCE_STRIDE as u64))
                }
            },
            SimulationMode::CpuParallel => None,
        }
    }

    /// Completes the switch with the read-back instance records: the
    /// mirror becomes exactly what the device held, every particle's
    /// position is reconciled from its model matrix's translation
    /// column, and only then does the CPU backend take write-authority.
    pub fn complete_switch(&mut self, data: Vec<InstanceRaw>)
        requires
            old(self).wf(),
            old(self).switch_pending,
            data@.len() == old(self).instances@.len(),
        ensures
            final(self).wf(),
            final(self).mode is CpuParallel,
            !final(self).switch_pending,
            final(self).instances_raw@ == data@,
            final(self).instances@.len() == old(self).instances@.len(),
            forall|i: int|
                0 <= i < data@.len() ==> #[trigger] final(self).instances@[i] == (Instance {
                    position: spec_raw_translation(data@[i]),
                    ..old(self).instances@[i]
                }),
            final(self).drifts@ == old(self).drifts@,
            final(self).camera == old(self).camera,
            final(self).camera_uniform == old(self).camera_uniform,
            final(self).width == old(self).width,
            final(self).height == old(self).height,
            final(self).workgroup_size == old(self).workgroup_size,
            final(self).timer == old(self).timer,
    {
        let n = self.instances.len();
        let mut new_instances: Vec<Instance> = Vec::new();
        let mut i: usize = 0;
        while i < n
            invariant
                i <= n,
                n == old(self).instances@.len(),
                data@.len() == n,
                self.instances@ == old(self).instances@,
                new_instances@.len() == i,
                forall|j: int|
                    0 <= j < i ==> #[trigger] new_instances@[j] == (Instance {
                        position: spec_raw_translation(data@[j]),
                        ..old(self).instances@[j]
                    }),
            decreases n - i,
        {
            let p = self.instances[i];
            let np = Instance {
                position: raw_position(&data[i]),
                rotation: p.rotation,
                color: p.color,
            };
            new_instances.push(np);
            i = i + 1;
        }
        self.instances = new_instances;
        self.instances_raw = data;
        self.mode = SimulationMode::CpuParallel;
        self.switch_pending = false;
    }

    /// Abandons a pending switch after a failed map request: the
    /// simulation keeps running under the backend it already had.
    pub fn cancel_switch(&mut self)
        requires
            old(self).wf(),
        ensures
            final(self).wf(),
            *final(self) == (State { switch_pending: false, ..*old(self) }),
    {
        self.switch_pending = false;
    }

    /// Rewrites the camera uniform from the camera's current fields,
    /// once per frame before the draw.
    pub fn refresh_camera(&mut self)
        requires
            old(self).wf(),
        ensures
            final(self).wf(),
            final(self).camera_uniform.view_proj@ == spec_view_proj(old(self).camera),
            *final(self) == (State { camera_uniform: final(self).camera_uniform, ..*old(self) }),
    {
        let camera = self.camera;
        self.camera_uniform.update_view_proj(&camera);
    }

    /// Applies a surface resize: a zero-area size changes nothing,
    /// otherwise the stored size and the camera's aspect ratio follow
    /// the new size.
    pub fn resize(&mut self, width: u32, height: u32)
        requires
            old(self).wf(),
        ensures
            final(self).wf(),
            width == 0 || height == 0 ==> *final(self) == *old(self),
            width > 0 && height > 0 ==> *final(self) == (State {
                width,
                height,
                camera: Camera { aspect: aspect_of(width, height), ..old(self).camera },
                ..*old(self)
            }),
    {
        if width > 0 && height > 0 {
            self.width = width;
            self.height = height;
            self.camera.apply_resize(width, height);
        }
    }

    /// Records one frame's elapsed time, in microseconds, and reports
    /// the rolling average over the kept samples.
    pub fn frame_finished(&mut self, elapsed_micros: u64) -> (avg: u64)
        requires
            old(self).wf(),
        ensures
            final(self).wf(),
            *final(self) == (State { timer: final(self).timer, ..*old(self) }),
            old(self).timer.samples@.len() < SAMPLE_CAPACITY ==> final(self).timer.samples@ == old(self).timer.samples@.push(elapsed_micros),
            old(self).timer.samples@.len() == SAMPLE_CAPACITY ==> final(self).timer.samples@ == old(self).timer.samples@.update(old(self).timer.cursor as int, elapsed_micros),
            final(self).timer.cursor == (if old(self).timer.cursor + 1 == SAMPLE_CAPACITY {
                0usize
            } else {
                (old(self).timer.cursor + 1) as usize
            }),
            avg == sum_of(final(self).timer.samples@) / (final(self).timer.samples@.len() as int),
    {
        self.timer.record(elapsed_micros);
        self.timer.average()
    }
}

} // verus!
