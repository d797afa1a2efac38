[package]
name = "ssam"
version = "0.1.0"
edition = "2021"
publish = false

[dependencies]
futures = "0.3"
nix = { version = "*", features = ["ioctl"] }
tokio = { version = "1", features = ["fs", "io-util"] }
