[package]
name = "rs-wgpu-learn"
version = "0.1.0"
edition = "2021"
publish = false

[dependencies]
anyhow = "1"
env_logger = "0.11"
log = "0.4"
parking_lot = "0.12"
pollster = "0.4"
wgpu = "24"
winit = "0.30"
