[package]
name = "slime_sim"
version = "0.1.0"
edition = "2021"
publish = false

[dependencies]
bytemuck = { version = "=1.25.2", features = ["derive"] }
egui = "=0.33.3"
egui-wgpu = { version = "=0.33.3", default-features = false }
egui-winit = { version = "=0.33.3", default-features = false, features = ["x11", "wayland"] }
env_logger = "=0.11.11"
log = "=0.4.35"
pollster = "=0.4.0"
quick-xml = { version = "=0.37.5", features = ["serialize"] }
serde = { version = "=1.0.229", features = ["derive"] }
wgpu = "27"
winit = "=0.30.13"
