[package]
name = "catacomb"
version = "0.1.0"
edition = "2021"
publish = false

[dependencies]
smithay = { version = "*", default-features = false }
calloop = "*"
serde = { version = "1", features = ["derive"] }
serde_json = "1"
dirs = "*"
clap = { version = "*", features = ["derive"] }
