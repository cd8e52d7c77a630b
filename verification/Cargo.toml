[package]
name = "wnd"
version = "0.1.0"
edition = "2021"
publish = false

[dependencies]
raw-window-handle = "=0.6.2"
windows = { version = "=0.57.0", features = ["Win32_Foundation", "Win32_Graphics_Gdi", "Win32_Graphics_Dwm", "Win32_System_LibraryLoader", "Win32_UI_Controls", "Win32_UI_HiDpi", "Win32_UI_WindowsAndMessaging"] }
