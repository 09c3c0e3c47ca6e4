[package]
name = "altoggle"
version = "0.1.0"
edition = "2021"
publish = false

[dependencies]
toml = { version = "=1.1.8", features = ["preserve_order"] }
png = "=0.18.1"
ico = "=0.6.0"
resvg = "=0.49.0"
tray-icon = "=0.26.1"
windows-sys = { version = "=0.61.2", features = ["Win32_Foundation", "Win32_Security", "Win32_UI_Input_KeyboardAndMouse", "Win32_UI_WindowsAndMessaging", "Win32_System_LibraryLoader", "Win32_System_Threading", "Win32_UI_Accessibility", "Win32_UI_Input_Ime", "Win32_System_RemoteDesktop", "Win32_System_Registry", "Win32_System_Console", "Win32_Graphics_Gdi", "Win32_UI_Controls", "Win32_UI_HiDpi"] }
