[package]
name = "ne_app"
version = "0.1.0"
edition = "2021"
publish = false

[dependencies]
wgpu = "=0.14.2"
winit = "=0.27.5"
pollster = "=0.2.5"
bytemuck = { version = "=1.25.2", features = ["derive"] }
instant = "=0.1.13"
tracing = "=0.1.44"
