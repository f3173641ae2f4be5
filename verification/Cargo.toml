[package]
name = "prerender_hook"
version = "0.1.0"
edition = "2021"
publish = false

[dependencies]
fancy-regex = "*"
serde_yaml = "*"
serde = { version = "*", features = ["derive"] }
