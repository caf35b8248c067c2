[package]
name = "service_views"
version = "0.1.0"
edition = "2021"
publish = false

[dependencies]
url = "2"
tauri = { version = "2", default-features = false }
windows = { version = "*", features = ["Win32_Foundation", "Win32_UI_WindowsAndMessaging"] }
cocoa = "*"
objc = "*"
dispatch = "*"
gtk = "0.18"
