[package]
name = "gdcf"
version = "0.1.0"
edition = "2021"
publish = false

[dependencies]
base64 = "*"
flate2 = "*"
serde = { version = "*", features = ["derive"] }
futures = "0.1"
