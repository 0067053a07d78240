[package]
name = "upower_notify"
version = "0.1.0"
edition = "2021"
publish = false

[dependencies]
anyhow = "*"
clap = { version = "*", features = ["derive"] }
env_logger = "*"
figment = { version = "*", features = ["toml"] }
futures = "*"
log = "*"
notify-rust = "*"
serde = { version = "*", features = ["derive"] }
tokio = { version = "*", features = ["macros", "rt-multi-thread", "signal"] }
xdg = "*"
zbus = "*"
