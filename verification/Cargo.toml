[package]
name = "engine"
version = "0.1.0"
edition = "2021"
publish = false

[dependencies]
bytemuck = { version = "1", features = ["derive"] }
env_logger = "0.10"
generational-arena = "0.2"
glam = "0.23"
pollster = "0.3"
typed-builder = "0.14"
wgpu = "0.15"
winit = "0.28"
