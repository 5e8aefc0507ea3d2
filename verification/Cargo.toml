[package]
name = "platform-win"
version = "0.1.0"
edition = "2021"
publish = false

[dependencies]
png = "0.18"
resvg = "0.45"

[dependencies.windows]
version = "0.62"
features = [
    "Win32_Foundation",
    "Win32_Graphics_Gdi",
    "Win32_Graphics_Dwm",
    "Win32_UI_WindowsAndMessaging",
    "Win32_UI_HiDpi",
    "Win32_UI_Input_KeyboardAndMouse",
    "Win32_UI_Shell",
    "Win32_UI_Controls",
    "Win32_UI_Controls_Dialogs",
    "Win32_System_Registry",
    "Win32_System_DataExchange",
    "Win32_System_Memory",
    "Win32_System_Ole",
    "Win32_System_LibraryLoader",
    "Win32_System_Diagnostics_Debug",
]
