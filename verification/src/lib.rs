//! A particle-field simulation and rendering core: a fixed population
//! of colored billboard particles, advanced once per frame either on
//! the host or by a compute dispatch whose geometry is chosen here,
//! with a camera, its GPU uniform, the byte layouts shared with the
//! device, and the drain-and-switch protocol that hands write-authority
//! over the instance mirror from the compute backend to the host.
//!
//! Floating-point values are carried everywhere as the `u32` bit
//! patterns of their `f32` representations; the arithmetic on them is
//! done by glam behind narrow trusted wrappers, and everything built
//! on top of those wrappers is verified.
pub mod bytes;
pub mod camera;
pub mod fbits;
pub mod mat;
pub mod sample;
pub mod state;
pub mod timer;
pub mod vertex;
