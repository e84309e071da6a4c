[package]
name = "life_renderer"
version = "0.1.0"
edition = "2021"
publish = false

[dependencies]
bytemuck = { version = "1", features = ["derive"] }
cgmath = "0.18"
env_logger = "0.9"
pollster = "0.2"
wgpu = "0.12"
winit = "0.26"
