[package]
name = "openusage_tray"
version = "0.1.0"
edition = "2021"
publish = false

[dependencies]
png = "0.17"
log = "0.4"
libc = "0.2"
serde_json = "1"
block2 = "0.6"
objc2 = "0.6"
objc2-foundation = "0.3"
objc2-app-kit = "0.3"
objc2-core-foundation = "0.3"
objc2-core-graphics = "0.3"
muda = { version = "0.17", default-features = false }
tauri = { version = "2", default-features = false, features = ["tray-icon", "image-png"] }
