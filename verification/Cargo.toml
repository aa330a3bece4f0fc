[package]
name = "pttkey"
version = "0.1.0"
edition = "2021"
publish = false

[dependencies]
anyhow = "=1.0.104"
ctrlc = "=3.5.2"
evdev = "=0.13.2"
rodio = "=0.21.1"
serde = { version = "=1.0.229", features = ["derive"] }
toml = "=1.1.8"
which = "=8.0.6"
