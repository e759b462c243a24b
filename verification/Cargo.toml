[package]
name = "story_crypto"
version = "0.1.0"
edition = "2021"
publish = false

[dependencies]
aes-gcm = "0.10"
base64 = "0.22"
log = "0.4"
serde_json = "1"
tauri = { version = "2", default-features = false }
tauri-plugin-fs = "2"
tauri-plugin-log = "2"
