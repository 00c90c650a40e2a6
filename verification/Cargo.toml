[package]
name = "pndev"
version = "0.1.0"
edition = "2021"
publish = false

[dependencies]
toml = "*"
dialoguer = "*"
dirs = "*"
dns-lookup = "*"
confy = "*"
serde = { version = "*", features = ["derive"] }
log = "*"
env_logger = "*"
ansi_term = "*"
