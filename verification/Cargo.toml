[package]
name = "app_launcher"
version = "0.1.0"
edition = "2021"
publish = false

[dependencies]
clap = { version = "4", features = ["derive"] }
log = "0.4"
num = "0.4"
serde_json = "1"
simplelog = "0.12"
