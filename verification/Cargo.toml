[package]
name = "serde_yaml"
version = "0.1.0"
edition = "2021"
publish = false

[dependencies]
linked-hash-map = "0.5"
serde = "0.8"
yaml-rust = "0.4"
