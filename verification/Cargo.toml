[package]
name = "panel_triggers"
version = "0.1.0"
edition = "2021"
publish = false

[dependencies]
crossbeam-channel = "0.5"
mouse_position = "0.1"
rdev = "0.5"
tauri = { version = "2", default-features = false }
