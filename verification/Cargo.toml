[package]
name = "renderer"
version = "0.1.0"
edition = "2021"
publish = false

[dependencies]
anyhow = "1"
bytemuck = { version = "1", features = ["derive"] }
cgmath = "0.18"
env_logger = "0.11"
image = { version = "0.24", default-features = false, features = ["png", "jpeg"] }
instant = "0.1"
log = "0.4"
mikktspace = "0.3"
pollster = "0.3"
tobj = { version = "3.2", features = ["async"] }
wgpu = "25"
winit = "0.30"
