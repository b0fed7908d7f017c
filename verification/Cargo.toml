[package]
name = "now_playing"
version = "0.1.0"
edition = "2021"
publish = false

[dependencies]
zbus = "*"
serde = { version = "*", features = ["derive"] }
