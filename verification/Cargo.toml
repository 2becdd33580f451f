[package]
name = "miniaturo"
version = "0.1.0"
edition = "2021"
publish = false

[dependencies]
image = "0.24"
libopenraw = "*"
anyhow = "1"
clap = { version = "4", features = ["derive"] }
