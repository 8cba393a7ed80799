[package]
name = "cargo_artifact_dependency"
version = "0.1.0"
edition = "2021"
publish = false

[dependencies]
apply_if = "=1.2.1"
cargo-install = "*"
derive_builder = "=0.20.2"
thiserror = "=2.0.21"

[dev-dependencies]
tempfile = "=3.27.0"
