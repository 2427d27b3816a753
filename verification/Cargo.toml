[package]
name = "mandelbrot"
version = "0.1.0"
edition = "2021"
publish = false

[dependencies]
rug = "=1.30.0"
bytemuck = { version = "=1.25.2", features = ["derive"] }
pollster = "=1.0.1"
env_logger = "=0.11.11"
winit = "=0.30.13"
wgpu = "=28.0.0"
