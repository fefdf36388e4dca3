[package]
name = "zk_notes"
version = "0.1.0"
edition = "2021"
publish = false

[dependencies]
clap = { version = "*", features = ["derive"] }
serde = "*"
serde_json = "*"
