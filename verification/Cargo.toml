[package]
name = "egami"
version = "0.1.0"
edition = "2021"
publish = false

[dependencies]
wgpu = { version = "22", default-features = false, features = ["wgsl"] }
winit = { version = "0.30", default-features = false, features = ["x11", "rwh_06"] }
smol = "2"
image = { version = "0.25", default-features = false, features = ["png"] }
env_logger = { version = "0.11", default-features = false }
bytemuck = { version = "1", features = ["derive"] }
