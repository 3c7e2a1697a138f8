[package]
name = "realsense_core"
version = "0.1.0"
edition = "2021"
publish = false

[dependencies]
realsense-sys = { version = "=2.56.5", default-features = false, features = ["docs-only"] }
