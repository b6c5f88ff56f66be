[package]
name = "dashboard"
version = "0.1.0"
edition = "2021"
publish = false

[dependencies]
ratatui = "*"
serde = { version = "*", features = ["derive"] }
serde_yaml = "*"
color-eyre = "*"
