[package]
name = "auth_irma"
version = "0.1.0"
edition = "2021"
publish = false

[dependencies]
askama = "0.12"
base64 = "0.13"
josekit = "0.8"
reqwest = { version = "0.11", features = ["json"] }
rocket = { version = "0.5", features = ["json"] }
serde = { version = "1", features = ["derive"] }
serde_json = "1"
serde_yaml = "0.8"
strum = "0.24"
strum_macros = "0.24"
