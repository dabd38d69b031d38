[package]
name = "tee_device"
version = "0.1.0"
edition = "2021"
publish = false

[dependencies]
helium-crypto = "0.8"
rand = "0.8"
http = "0.2"
serde = { version = "1", features = ["derive"] }
bytes = "1"
