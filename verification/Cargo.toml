[package]
name = "shader_preview"
version = "0.1.0"
edition = "2021"
publish = false

[dependencies]
naga = "0.12"
wgpu = "0.16"
winit = "0.28"
notify = "6"
clap = { version = "4", features = ["derive"] }
env_logger = "0.10"
pollster = "0.3"
