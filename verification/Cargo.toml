[package]
name = "akagi"
version = "0.1.0"
edition = "2021"
publish = false

[dependencies]
globset = "=0.4.21"
riichienv-core = "=0.4.11"
serde = { version = "=1.0.229", features = ["derive"] }
serde_json = "=1.0.154"
dirs = "=7.0.0"
chrono = "=0.4.45"
base64 = "=0.22.1"
toml = "*"
which = "*"
zip = "*"
