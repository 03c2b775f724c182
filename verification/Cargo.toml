[package]
name = "ceno_pipeline"
version = "0.1.0"
edition = "2021"
publish = false

[dependencies]
cargo_metadata = "=0.23.1"
