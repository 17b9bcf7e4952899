[package]
name = "render_resources"
version = "0.1.0"
edition = "2021"
publish = false

[dependencies]
anyhow = "1"
bytemuck = "1"
cgmath = "0.18"
image = { version = "0.24", default-features = false, features = ["png", "jpeg"] }
wgpu = "0.17"
