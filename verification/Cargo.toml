[package]
name = "crate_inspector"
version = "0.1.0"
edition = "2021"
publish = false

[dependencies]
rustdoc-json = "*"
rustdoc-types = "*"
serde_json = "*"
