[package]
name = "livestock_rs"
version = "0.1.0"
edition = "2021"
publish = false

[dependencies]
Inflector = { version = "0.11", default-features = false }
anyhow = "1"
clap = { version = "4", features = ["derive"] }
serde = { version = "1", features = ["derive"] }
