[package]
name = "rink"
version = "0.8.0"
edition = "2021"
publish = false

[dependencies]
nu-ansi-term = { version = "=0.50.3", features = ["derive_serde_style"] }
ubyte = { version = "=0.10.4", features = ["serde"] }
serde = { version = "=1.0.229", features = ["derive"] }
serde_derive = "=1.0.229"
toml = "=1.1.8"
humantime-serde = "=1.1.1"
dirs = "=7.0.0"
tempfile = "=3.27.0"
curl = "=0.4.51"
eyre = "=0.6.14"
color-eyre = "=0.6.5"
