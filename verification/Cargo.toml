[package]
name = "whatsapp_tauri"
version = "0.1.0"
edition = "2021"
publish = false

[dependencies]
base64 = "0.22"
url = "2"
serde_json = "1"
image = { version = "0.25", default-features = false, features = ["png"] }
dirs = "6"
open = "5"
