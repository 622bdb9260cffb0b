[package]
name = "rsa_introspect"
version = "0.1.0"
edition = "2021"
publish = false

[dependencies]
rsa = "=0.9.10"
num-bigint-dig = "=0.8.6"
num-integer = "=0.1.47"
rand = "=0.8.8"
serde = { version = "=1.0.229", features = ["derive"] }
serde_json = "=1.0.151"
