[package]
name = "winomove"
version = "0.1.0"
edition = "2021"
publish = false

[dependencies]
tray-icon = "*"
windows = { version = "*", features = [
    "Win32_Foundation",
    "Win32_Graphics_Gdi",
    "Win32_System_Threading",
    "Win32_UI_Input_KeyboardAndMouse",
    "Win32_UI_WindowsAndMessaging",
] }
