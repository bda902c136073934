[package]
name = "nucleus"
version = "0.3.0"
edition = "2021"
publish = false

[dependencies]
anyhow = "1"
wgpu = "*"
winit = "*"
pollster = "*"
env_logger = "*"
egui = "*"
egui-wgpu = "*"
egui-winit = "*"
