[package]
name = "gyeol"
version = "0.1.0"
edition = "2021"
publish = false

[dependencies]
bytemuck = { version = "1", features = ["derive"] }
cosmic-text = "*"
pollster = "0.4"
taffy = "*"
wgpu = "*"
winit = "0.30"
