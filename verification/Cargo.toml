[package]
name = "rrdbc"
version = "0.1.0"
edition = "2021"
publish = false

[dependencies]
anyhow = "*"
encoding_rs = "*"
serde = "*"
serde_json = "*"
