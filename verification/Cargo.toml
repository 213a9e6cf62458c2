[package]
name = "dial"
version = "0.1.0"
edition = "2021"
publish = false

[dependencies]
anyhow = "1"
directories = "*"
log = "0.4"
ratatui = "0.29"
serde = { version = "1", features = ["derive"] }
serde_json = "1"
simplelog = "*"
syntect = { version = "5", default-features = false, features = ["default-fancy"] }
syntect-tui = "3"
