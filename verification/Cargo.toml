[package]
name = "particles"
version = "0.1.0"
edition = "2021"
publish = false

[dependencies]
glam = { version = "=0.24.2", features = ["bytemuck"] }
bytemuck = "=1.25.2"
rand = "=0.8.8"
wgpu = "=0.16.3"
winit = "=0.28.7"
pollster = "=0.3.0"
log = "=0.4.34"
env_logger = "=0.10.2"
