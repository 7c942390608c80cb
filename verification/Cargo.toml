[package]
name = "tray_icon"
version = "0.1.0"
edition = "2021"
publish = false

[dependencies]
ksni = "=0.2.2"
thiserror = "=1.0.69"
windows-sys = { version = "=0.52.0", features = ["Win32_Foundation", "Win32_Graphics_Gdi", "Win32_System_LibraryLoader", "Win32_System_Diagnostics_Debug", "Win32_UI_Shell", "Win32_UI_WindowsAndMessaging"] }
