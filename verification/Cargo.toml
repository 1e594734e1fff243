[package]
name = "gptcli"
version = "0.1.0"
edition = "2021"
publish = false

[dependencies]
colored = "2"
home = "0.5"
reqwest = { version = "0.11", features = ["blocking"] }
serde_json = "1"
toml = "0.8"
