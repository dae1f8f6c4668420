[package]
name = "reloadify"
version = "0.1.0"
edition = "2021"
publish = false

[dependencies]
serde = { version = "*", features = ["derive"] }
serde_json = "*"
serde_yaml = "*"
serde-xml-rs = "*"
serde_ini = "*"
toml = "*"
notify = "*"
