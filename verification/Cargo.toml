[package]
name = "serde_gura"
version = "0.1.0"
edition = "2021"
publish = false

[dependencies]
gura = "*"
indexmap = "*"
serde = "1"
