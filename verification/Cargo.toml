[package]
name = "obake_launcher"
version = "0.1.0"
edition = "2021"
publish = false

[dependencies]
anyhow = "*"
clap = { version = "*", features = ["derive", "env"] }
env_logger = "*"
figment = { version = "*", features = ["toml"] }
log = "*"
serde = { version = "*", features = ["derive"] }
systemd-zbus = "*"
tokio = { version = "*", features = ["macros", "rt-multi-thread"] }
