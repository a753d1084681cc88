[package]
name = "yeet-cli"
version = "0.1.0-alpha.1"
edition = "2021"
publish = false

[dependencies]
clap = { version = "4", features = ["derive", "env"] }
ctrlc = "3"
serde = { version = "1", features = ["derive"] }
serde_json = "1"
tempfile = "3"
toml = "0.8"
