[package]
name = "lumentix"
version = "0.1.0"
edition = "2021"
publish = false

[dependencies]
serde = { version = "1", features = ["derive"] }
soroban-sdk = "21"
