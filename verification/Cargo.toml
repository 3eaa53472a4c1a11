[package]
name = "zork"
version = "0.5.0"
edition = "2021"
publish = false

[dependencies]
clap = { version = "4", features = ["derive"] }
color-eyre = "0.6"
log = "0.4"
serde = { version = "1", features = ["derive"] }
toml = "0.5"

[dev-dependencies]
tempfile = "3"
