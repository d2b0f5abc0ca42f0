[package]
name = "mat_engine"
version = "0.1.0"
edition = "2021"
publish = false

[dependencies]
anyhow = "=1.0.104"
bytemuck = { version = "=1.25.2", features = ["derive"] }
flexi_logger = "=0.31.10"
futures = "=0.3.34"
image = { version = "=0.25.10", default-features = false, features = ["png"] }
imgui = "=0.12.0"
imgui-wgpu = "=0.28.0"
imgui-winit-support = "=0.13.0"
lazy_static = "=1.5.1"
log = "=0.4.34"
nalgebra-glm = "=0.21.0"
shaderc = "=0.10.1"
static_assertions = "=1.1.0"
wgpu = { version = "=29.0.4", features = ["spirv"] }
winit = "=0.30.13"
