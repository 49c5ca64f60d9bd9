[package]
name = "nvml-wrapper"
version = "0.1.0"
edition = "2021"
publish = false

[dependencies]
libloading = "0.8"
serde = { version = "1", features = ["derive"] }
serde_derive = "1"
static_assertions = "1"
