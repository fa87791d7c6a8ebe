[package]
name = "ble_gateway"
version = "0.1.0"
edition = "2021"
publish = false

[dependencies]
anyhow = "1"
axum = "0.7"
btleplug = "*"
clap = { version = "4", features = ["derive"] }
env_logger = "*"
log = "0.4"
serde = { version = "1", features = ["derive"] }
serde_json = "1"
tokio = { version = "1", features = ["macros", "rt-multi-thread", "time", "net", "sync"] }
tray-icon = "*"
uuid = "1"
