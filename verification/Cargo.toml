[package]
name = "cita_chain"
version = "0.1.0"
edition = "2021"
publish = false

[dependencies]
cita-types = "=0.1.0"
protobuf = "=2.28.0"
serde = { version = "=1.0.229", features = ["derive"] }
serde_json = "=1.0.154"
