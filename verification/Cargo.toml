[package]
name = "flight_controller"
version = "0.1.0"
edition = "2021"
publish = false

[dependencies]
anyhow = "*"
clap = "*"
env_logger = "*"
git2 = { version = "*", default-features = false }
log = "*"
rayon = "*"
temp-dir = "*"
