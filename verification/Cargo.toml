[package]
name = "mandelbrot_gpu"
version = "0.1.0"
edition = "2021"
publish = false

[dependencies]
anyhow = "=1.0.104"
eframe = { version = "=0.33.3", default-features = false, features = ["wgpu", "default_fonts", "x11", "wayland"] }
egui = "=0.33.3"
egui-wgpu = "=0.33.3"
env_logger = "=0.11.11"
log = "=0.4.34"
measure_time = "=0.9.0"
pollster = "0.4"

[dev-dependencies]
bytemuck = "=1.25.2"
