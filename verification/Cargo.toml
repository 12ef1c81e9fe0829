[package]
name = "simon"
version = "0.1.0"
edition = "2021"
publish = false

[dependencies]
glob = "0.3"
nix = { version = "0.29", features = ["signal", "fs", "user"] }
nvml-wrapper = "0.10"
serde = { version = "1", features = ["derive"] }
serde_json = "1"
thiserror = "1"
