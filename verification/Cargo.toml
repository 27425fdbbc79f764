[package]
name = "voxel"
version = "0.1.0"
edition = "2021"
publish = false

[dependencies]
ash = "=0.38.0"
ash-window = "=0.13.0"
winit = { version = "=0.30.13", default-features = false, features = ["x11", "rwh_06"] }
vk-mem = "=0.4.0"
thiserror = "=2.0.21"
tracing = { version = "=0.1.44", features = ["log"] }
env_logger = "=0.11.11"
syn = { version = "=2.0.119", features = ["full"] }
quote = "1"
proc-macro2 = "1"
shader-slang = "=0.1.0"
