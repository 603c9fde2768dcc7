[package]
name = "captcha_puzzle"
version = "0.1.0"
edition = "2021"
publish = false

[dependencies]
rand = "=0.8.8"
winit = "=0.30.13"
wgpu = "=28.0.0"
wgpu_glyph = "=0.28.0"
pollster = "=1.0.1"
bytemuck = { version = "=1.25.2", features = ["derive"] }
