[package]
name = "zff"
version = "0.1.0"
edition = "2021"
publish = false

[dependencies]
ed25519-dalek = "2"
hex = "0.4"
pkcs5 = { version = "*", features = ["alloc", "pbes2"] }
serde = { version = "1", features = ["derive"] }
