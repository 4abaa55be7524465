[package]
name = "usage_widget"
version = "0.7.0"
edition = "2021"
publish = false

[dependencies]
aes = "0.8"
cbc = "0.1"
pbkdf2 = "0.12"
sha1 = "0.10"
aes-gcm = "0.10"
base64 = "0.22"
serde = { version = "1", features = ["derive"] }
serde_json = "1"
chrono = "0.4"
x11rb = { version = "0.13", features = ["screensaver"] }
open = "5"
rusqlite = "0.32"
eframe = { version = "0.31", default-features = false, features = ["default_fonts", "glow", "x11"] }
ksni = "0.2"
