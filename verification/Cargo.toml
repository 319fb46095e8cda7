[package]
name = "cuda_backend"
version = "0.1.0"
edition = "2021"
publish = false

[dependencies]
cudarc = { version = "0.12", default-features = false, features = ["std", "driver", "nvrtc", "cuda-12000"] }
thiserror = "1"
