[package]
name = "gpu_shell"
version = "0.1.0"
edition = "2021"
publish = false

[dependencies]
wgpu = "0.12"
winit = "0.26"
bytemuck = { version = "1", features = ["derive"] }
log = "0.4"
env_logger = "0.9"
pollster = "0.2"
