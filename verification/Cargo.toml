[package]
name = "cloudhost"
version = "0.1.0"
edition = "2021"
publish = false

[dependencies]
axum = "0.7"
axum-extra = { version = "0.9", features = ["multipart"] }
bcrypt = "0.15"
chrono = { version = "0.4", features = ["serde"] }
clap = { version = "4", features = ["derive"] }
color-eyre = "0.6"
dirs = "5"
jsonwebtoken = "9"
open = "5"
ratatui = "0.29"
serde = { version = "1", features = ["derive"] }
serde_json = "1"
shlex = "1"
tokio = { version = "1", features = ["full"] }
toml = "0.8"
tower-http = { version = "0.5", features = ["cors"] }
