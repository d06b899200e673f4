[package]
name = "logitech_sim_led"
version = "0.1.0"
edition = "2021"
publish = false

[dependencies]
anyhow = "1"
async-trait = "0.1"
axum = { version = "*", features = ["ws"] }
clap = { version = "4", features = ["derive"] }
dirs = "*"
hidapi = "2"
image = { version = "*", default-features = false, features = ["png"] }
rfd = { version = "0.15", default-features = false, features = ["gtk3"] }
serde = { version = "1", features = ["derive"] }
serde_json = "1"
tao = "*"
tokio = { version = "1", features = ["full"] }
tokio-serial = { version = "*", default-features = false }
toml = "*"
tracing = "0.1"
tracing-appender = "0.2"
tracing-subscriber = { version = "0.3", features = ["env-filter"] }
tray-icon = "*"
winreg = "*"
wry = "*"
