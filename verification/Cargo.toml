[package]
name = "mirror"
version = "0.1.0"
edition = "2021"
publish = false

[dependencies]
memflow = "*"
serde = { version = "*", features = ["derive"] }
toml = "*"
dirs = "*"
