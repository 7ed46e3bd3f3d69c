[package]
name = "fractal_spirograph"
version = "0.1.0"
edition = "2021"
publish = false

[dependencies]
bytemuck = "=1.25.2"
env_logger = "=0.10.2"
log = "=0.4.34"
pollster = "=0.2.5"
wgpu = "0.13"
winit = "=0.27.5"
