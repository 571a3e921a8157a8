[package]
name = "global_overlay"
version = "0.1.0"
edition = "2021"
publish = false

[dependencies]
anyhow = "1"
block = "0.1"
cocoa = "0.26"
futures = "0.3"
log = "0.4"
objc = "0.2"
parking_lot = "0.12"
windows = { version = "0.58", features = ["Win32_Foundation", "Win32_UI_Input_KeyboardAndMouse", "Win32_UI_WindowsAndMessaging"] }
x11rb = "0.13"
