[package]
name = "plannrs"
version = "0.1.0"
edition = "2021"
publish = false

[dependencies]
toml = "*"
serde = { version = "*", features = ["derive"] }
ratatui = "*"
crossterm = "*"
color-eyre = "*"
