[package]
name = "pixforge"
version = "0.1.0"
edition = "2021"
publish = false

[dependencies]
anyhow = "*"
clap = { version = "4", features = ["derive"] }
image = "*"
walkdir = "*"
webp = { version = "0.3", default-features = false }
