[package]
name = "drag"
version = "0.4.0"
edition = "2021"
publish = false

[dependencies]
base64 = "0.22"
cocoa = "0.25"
core-graphics = "0.23"
dunce = "1"
gdkx11 = "0.18"
gtk = "0.18"
objc = "0.2"
raw-window-handle = "0.5"
serde = { version = "1", features = ["derive"] }
serde_json = "1"
tempfile = "3"
thiserror = "1"
windows = { version = "0.52", features = ["implement", "Win32_Foundation", "Win32_Graphics_Gdi", "Win32_Graphics_Imaging", "Win32_System_Com", "Win32_System_Memory", "Win32_System_Ole", "Win32_System_SystemServices", "Win32_UI_Shell", "Win32_UI_Shell_Common", "Win32_UI_WindowsAndMessaging"] }
