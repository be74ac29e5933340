[package]
name = "sync_helper"
version = "0.1.0"
edition = "2021"
publish = false

[dependencies]
anyhow = "1"
console = "0.15"
dialoguer = "0.11"
directories = "5"
serde = { version = "1", features = ["derive"] }
toml = "0.8"
