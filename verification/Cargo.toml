[package]
name = "gpu_pipeline"
version = "0.1.0"
edition = "2021"
publish = false

[dependencies]
vulkano = "0.31"
bytemuck = "1"
