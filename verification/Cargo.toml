[package]
name = "frame_engine"
version = "0.1.0"
edition = "2021"
publish = false

[dependencies]
png = "=0.16.8"
vulkano = "=0.24.0"
vulkano-shaders = "=0.24.0"
vulkano-win = "=0.24.0"
winit = "=0.25.0"
