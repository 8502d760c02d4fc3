[package]
name = "voxel_render"
version = "0.1.0"
edition = "2021"
publish = false

[dependencies]
bytemuck = { version = "1", features = ["derive"] }
cgmath = "0.18"
env_logger = { version = "0.11", default-features = false }
pollster = "0.3"
wgpu = "0.20"
winit = "0.30"
