[package]
name = "check_qualys"
version = "0.1.0"
edition = "2021"
publish = false

[dependencies]
addr = "0.15"
clap = { version = "=4.6.7", features = ["derive"] }
indicatif = "=0.17.11"
reqwest = { version = "=0.11.27", features = ["blocking"] }
serde = { version = "=1.0.229", features = ["derive"] }
serde_json = "=1.0.154"
strum_macros = "=0.28.0"
