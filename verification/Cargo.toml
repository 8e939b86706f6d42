[package]
name = "vortex_gpu_audio"
version = "0.1.0"
edition = "2021"
publish = false

[dependencies]
log = "0.4"
num_cpus = "1"
parking_lot = "0.12"
serde = { version = "1", features = ["derive"] }
serde_json = "1"
thiserror = "1"
uuid = { version = "1", features = ["v4"] }
