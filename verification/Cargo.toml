[package]
name = "privilege_check"
version = "0.1.0"
edition = "2021"
publish = false

[dependencies]
tauri = { version = "*", default-features = false }
windows = { version = "*", features = ["Win32_UI_Shell", "Win32_Foundation"] }
