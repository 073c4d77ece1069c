[package]
name = "ctap2_proto"
version = "0.1.0"
edition = "2021"
publish = false

[dependencies]
bounded-integer = "*"
bounded-vec = "*"
cosey = "*"
serde = { version = "1", features = ["derive"] }
serde_with = "*"
typed-builder = "*"
