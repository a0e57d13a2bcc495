[package]
name = "wsl_terminal"
version = "0.4.0"
edition = "2021"
publish = false

[dependencies]
serde = { version = "*", features = ["derive"] }
serde_json = "*"
portable-pty = "*"
dirs = "*"
keyring = "*"
