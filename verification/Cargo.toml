[package]
name = "amber_lume"
version = "0.1.0"
edition = "2021"
publish = false

[dependencies]
anyhow = "1"
arc-swap = "1"
ash = "0.38"
bytemuck = { version = "1", features = ["derive"] }
glam = "0.29"
tracing = "0.1"
