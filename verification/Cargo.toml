[package]
name = "fwd_rgb"
version = "0.1.0"
edition = "2021"
publish = false

[dependencies]
framework_lib = { version = "=0.6.6", default-features = false }
rand = "=0.8.8"
clap = { version = "=4.6.7", features = ["derive"] }
env_logger = "=0.11.11"
