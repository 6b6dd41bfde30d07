[package]
name = "flyio_provider"
version = "0.1.0"
edition = "2021"
publish = false

[dependencies]
serde_json = "1"
thiserror = "1"
async-trait = "0.1"
