[package]
name = "prettyterm"
version = "0.1.0"
edition = "2021"
publish = false

[dependencies]
vtparse = "=0.7.0"
portable-pty = "=0.9.0"
serde = { version = "=1.0.229", features = ["derive"] }
serde_json = "=1.0.154"
toml = "=1.2.1"
dirs = "=7.0.0"
log = "=0.4.35"
termwiz = "=0.23.3"
num-traits = "=0.2.19"
keyboard-types = "0.7"
