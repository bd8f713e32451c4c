[package]
name = "blockchain"
version = "0.1.0"
edition = "2021"
publish = false

[dependencies]
blake2 = "*"
data-encoding = "*"
serde = { version = "*", features = ["derive"] }
serde_json = "*"
