[package]
name = "arrow_range"
version = "0.1.0"
edition = "2021"
publish = false

[dependencies]
serde_core = "1"
serde_json = "1"
