[package]
name = "feather_alloy"
version = "0.1.0"
edition = "2021"
publish = false

[dependencies]
uuid = { version = "1", features = ["v4"] }
url = "*"
serde = { version = "1", features = ["derive"] }
serde_json = "1"
dirs = "*"
http = "*"
image = "*"
tao = "*"
wry = "*"
tray-icon = "*"
muda = "*"
gtk = "*"
