[package]
name = "spa_router"
version = "0.1.0"
edition = "2021"
publish = false

[dependencies]
axum = "=0.6.20"
base64 = "=0.13.1"
mime_guess = "=2.0.4"
rust-embed = "=6.8.1"
