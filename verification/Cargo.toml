[package]
name = "dark_mode"
version = "0.1.0"
edition = "2021"
publish = false

[dependencies]
objc = "*"
once_cell = "*"
windows = { version = "*", features = ["Win32_Foundation", "Win32_System_LibraryLoader", "Win32_System_SystemInformation", "Win32_UI_Accessibility", "Win32_UI_WindowsAndMessaging"] }
