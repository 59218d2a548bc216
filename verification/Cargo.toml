[package]
name = "pathtracing"
version = "0.1.0"
edition = "2021"
publish = false

[dependencies]
futures = "0.3"
wgpu = "0.20"
winit = "0.30"
