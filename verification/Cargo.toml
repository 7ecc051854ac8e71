[package]
name = "mga"
version = "0.1.0"
edition = "2021"
publish = false

[dependencies]
yaml-rust = "0.4"
anyhow = "1"
clap = { version = "4", features = ["derive"] }
flate2 = "1"
infer = "*"
serde = { version = "1", features = ["derive"] }
serde_json = "1"
tar = "0.4"
tempfile = "3"
