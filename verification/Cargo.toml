[package]
name = "wdl_conformance"
version = "0.1.0"
edition = "2021"
publish = false

[dependencies]
serde_json = "1"
clap = { version = "4", features = ["derive"] }
git2 = { version = "*", default-features = false }
tempfile = "3"
