[package]
name = "board_render"
version = "0.1.0"
edition = "2021"
publish = false

[dependencies]
rand = "0.8"
serde = { version = "1", features = ["derive"] }
serde_json = "1"
anyhow = "1"
bytemuck = { version = "1", features = ["derive"] }
cgmath = "0.18"
image = "0.24"
pollster = "0.3"
tobj = { version = "3", features = ["async"] }
wgpu = "=0.13.1"
wgpu-biolerless = "=0.1.2"
wgpu_glyph = "=0.17.0"
winit = "=0.27.5"
