[package]
name = "window_inspector"
version = "0.1.0"
edition = "2021"
publish = false

[dependencies]
lazy_static = "1.4"
lru = "0.12"
thiserror = "1"
windows = { version = "0.58", features = ["Win32_Foundation", "Win32_Graphics_Dwm", "Win32_Graphics_Gdi", "Win32_System_Threading", "Win32_UI_WindowsAndMessaging"] }
