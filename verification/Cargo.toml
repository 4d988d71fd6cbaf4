[package]
name = "quartet"
version = "0.1.0"
edition = "2021"
publish = false

[dependencies]
bytemuck = "=1.25.2"
cgmath = "=0.18.0"
env_logger = { version = "=0.11.11", default-features = false }
image = { version = "=0.25.10", default-features = false, features = ["bmp"] }
imgui = "=0.12.0"
imgui-wgpu = "=0.25.0"
imgui-winit-support = "=0.13.0"
tokio = { version = "=1.54.1", features = ["rt-multi-thread"] }
wgpu = "25"
winit = "=0.30.13"
