[package]
name = "finger_paint_wgpu"
version = "0.1.0"
edition = "2021"
publish = false

[dependencies]
cgmath = "0.18"
bytemuck = { version = "1", features = ["derive"] }
