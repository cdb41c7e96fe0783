[package]
name = "larql_compute"
version = "0.1.0"
edition = "2021"
publish = false

[dependencies]
vulkano = "0.34"
vulkano-shaders = "0.34"
ndarray = "0.16"
bytemuck = { version = "1", features = ["derive"] }
once_cell = "1"
