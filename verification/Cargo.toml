[package]
name = "backups"
version = "0.1.0"
edition = "2021"
publish = false

[dependencies]
chrono = "*"
argparse = "*"
serde = { version = "*", features = ["derive"] }
toml = "*"
