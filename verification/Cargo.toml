[package]
name = "gpu_types"
version = "0.1.0"
edition = "2021"
publish = false

[dependencies]
bytemuck = "*"
glam = { version = "=0.34.1", features = ["bytemuck"] }
serde = { version = "*", features = ["derive"] }
