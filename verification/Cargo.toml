[package]
name = "screeps_api"
version = "0.1.0"
edition = "2021"
publish = false

[dependencies]
serde = { version = "1", features = ["derive"] }
serde_json = { version = "1", features = ["raw_value"] }
url = "2"
rand = "0.8"
time = "0.1"
