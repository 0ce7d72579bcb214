[package]
name = "luwidget"
version = "0.1.0"
edition = "2021"
publish = false

[dependencies]
auto-launch = "*"
serde_json = "*"
tauri = { version = "*", default-features = false, features = ["tray-icon"] }
