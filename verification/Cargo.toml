[package]
name = "wallmint"
version = "0.1.0"
edition = "2021"
publish = false

[dependencies]
dirs = "*"
serde = { version = "1", features = ["derive"] }
serde_json = "1"
gtk4 = "*"
gtk4-layer-shell = "*"
