[package]
name = "voxel_engine"
version = "0.1.0"
edition = "2021"
publish = false

[dependencies]
gl = "=0.14.0"
glam = "0.30"
glfw = "=0.63.0"
image = { version = "=0.25.10", default-features = false }
noise = { version = "=0.9.0", default-features = false }
