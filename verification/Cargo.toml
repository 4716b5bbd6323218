[package]
name = "ttsst"
version = "0.1.0"
edition = "2021"
publish = false

[dependencies]
anyhow = "1"
clap = { version = "4", features = ["derive"] }
colorize = "*"
inquire = "*"
regex = "1"
serde = { version = "1", features = ["derive"] }
serde_json = "1"
snailquote = "*"
thiserror = "1"
