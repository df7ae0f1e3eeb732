[package]
name = "gpu_mem_monitor"
version = "0.1.0"
edition = "2021"
publish = false

[dependencies]
chrono = "*"
clap = { version = "*", features = ["derive"] }
ctrlc = "*"
libloading = "*"
nvml-wrapper = "*"
nvml-wrapper-sys = "*"
once_cell = "*"
