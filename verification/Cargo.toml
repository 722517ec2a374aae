[package]
name = "turbocommerce"
version = "0.1.0"
edition = "2021"
publish = false

[dependencies]
serde = { version = "1", features = ["derive"] }
serde_json = "1"
thiserror = "1"
anyhow = "1"
clap = { version = "4", features = ["derive"] }
chrono = "0.4"
console = "0.15"
dialoguer = "0.11"
indicatif = "0.17"
toml = "0.8"
