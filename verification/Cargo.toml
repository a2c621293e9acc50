[package]
name = "scene_renderer"
version = "0.1.0"
edition = "2021"
publish = false

[dependencies]
anyhow = "*"
bytemuck = "*"
cgmath = "*"
env_logger = "*"
image = "*"
log = "*"
mikktspace = "*"
pollster = "*"
tobj = "*"
wgpu = "*"
winit = "*"
