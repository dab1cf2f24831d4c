[package]
name = "poe2openai"
version = "0.1.0"
edition = "2021"
publish = false

[dependencies]
askama = "*"
poe_api_process = "*"
salvo = { version = "*", features = ["basic-auth"] }
serde = { version = "1", features = ["derive"] }
serde_json = "1"
serde_yaml = "0.9"
tracing = "0.1"
