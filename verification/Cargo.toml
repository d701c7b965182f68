[package]
name = "quickshotter"
version = "0.1.0"
edition = "2021"
publish = false

[dependencies]
base64 = "0.22"
chrono = "0.4"
color_quant = "1.1"
crossbeam-channel = "0.5"
dirs = "6"
gif = "0.13"
image = { version = "0.25", default-features = false, features = ["png", "jpeg", "webp"] }
serde = { version = "1", features = ["derive"] }
serde_json = "1"
thiserror = "2"
