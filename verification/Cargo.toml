[package]
name = "waybar_status"
version = "0.1.0"
edition = "2021"
publish = false

[dependencies]
async-process = "*"
async-signal = "*"
clap = { version = "4", features = ["derive"] }
core_affinity = "*"
futures-lite = "*"
gree = "*"
rusqlite = "*"
serde = { version = "1", features = ["derive"] }
serde_json = "1"
signal-hook = "*"
tokio = { version = "1", features = ["full"] }
xdg = "2"
xdg-user = "*"
yeelight = "*"
