[package]
name = "music-reader"
version = "0.1.0"
edition = "2021"
publish = false

[dependencies]
anyhow = "1"
cairo-rs = { version = "0.18", features = ["png"] }
clap = { version = "4", features = ["derive"] }
env_logger = "0.10"
glib = "0.18"
gtk4 = "0.7"
log = "0.4"
poppler-rs = "0.22"
