[package]
name = "esplora_sync"
version = "0.1.0"
edition = "2021"
publish = false

[dependencies]
esplora-client = { version = "*", features = ["blocking"] }
bitcoin = "*"
