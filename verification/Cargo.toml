[package]
name = "rustormy"
version = "0.4.0"
edition = "2021"
publish = false

[dependencies]
capitalize = "*"
chrono = "0.4"
clap = { version = "4", features = ["derive"] }
crossterm = "*"
directories = "*"
reqwest = { version = "0.12", default-features = false, features = ["blocking", "json", "rustls-tls"] }
serde = { version = "1", features = ["derive"] }
serde_json = "1"
thiserror = "2"
toml = "*"
