[package]
name = "custom_titlebar"
version = "0.1.0"
edition = "2021"
publish = false

[dependencies]
anyhow = "1"
windows = { version = "0.52", features = ["Win32_Foundation", "Win32_Graphics_Gdi", "Win32_UI_Controls", "Win32_UI_HiDpi", "Win32_UI_Input_KeyboardAndMouse", "Win32_UI_WindowsAndMessaging"] }
