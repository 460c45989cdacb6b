[package]
name = "parch_helper"
version = "0.2.0"
edition = "2021"
publish = false

[dependencies]
base64 = "0.22"
colored = "2"
crossterm = "0.27"
is-terminal = "0.4"
libc = "0.2"
serde = { version = "1", features = ["derive"] }
serde_json = "1"
toml = "0.8"
unicode-width = "0.1"
