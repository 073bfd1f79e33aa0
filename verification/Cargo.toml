[package]
name = "nix_parser"
version = "0.1.0"
edition = "2021"
publish = false

[dependencies]
nixel = "*"
serde_json = { version = "1", features = ["preserve_order"] }
pyo3 = "0.22"
