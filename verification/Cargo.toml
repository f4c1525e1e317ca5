[package]
name = "tray_hotkey"
version = "0.1.0"
edition = "2021"
publish = false

[dependencies]
anyhow = "*"
auto-launch = "*"
tracing = "*"
tracing-appender = "*"
tracing-subscriber = "*"
trayicon = "*"
windows = { version = "0.52", features = ["Win32_Foundation", "Win32_System_Threading", "Win32_UI_Input_KeyboardAndMouse", "Win32_UI_WindowsAndMessaging"] }
windows_dpi = "*"
winreg = "*"
