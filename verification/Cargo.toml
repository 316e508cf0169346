[package]
name = "datalogic-rs"
version = "0.1.0"
edition = "2021"
publish = false

[dependencies]
bumpalo = "3"
regex = "1"
serde = { version = "1", features = ["derive"] }
serde_json = "1"
