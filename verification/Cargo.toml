[package]
name = "capture_as_image"
version = "0.1.0"
edition = "2021"

[dependencies]
log = "=0.4.34"
windows = { version = "=0.61.3", features = ["Win32_Foundation", "Win32_Graphics_Gdi", "Win32_System_Console", "Win32_UI_WindowsAndMessaging"] }
