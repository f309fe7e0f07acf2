[package]
name = "prefix_bot"
version = "0.1.0"
edition = "2021"
publish = false

[dependencies]
anyhow = "1"
poise = "0.5.7"
shuttle-poise = "0.34"
shuttle-runtime = "0.34"
shuttle-secrets = "0.34"
tokio = "1"
