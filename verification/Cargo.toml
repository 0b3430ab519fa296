[package]
name = "vidcapview"
version = "0.1.0"
edition = "2021"
publish = false

[dependencies]
windows-core = "=0.61.2"
windows-numerics = "=0.2.0"
clap = { version = "=4.6.7", features = ["derive"] }

[dependencies.windows]
version = "=0.61.3"
features = [
    "Foundation",
    "Foundation_Collections",
    "Foundation_Numerics",
    "Graphics",
    "Media_Core",
    "Media_MediaProperties",
    "Media_Playback",
    "UI",
    "UI_Composition",
    "UI_Composition_Desktop",
    "Win32_Foundation",
    "Win32_Graphics_Gdi",
    "Win32_Media_MediaFoundation",
    "Win32_System_Com",
    "Win32_System_Com_StructuredStorage",
    "Win32_System_LibraryLoader",
    "Win32_System_Variant",
    "Win32_System_WinRT",
    "Win32_System_WinRT_Composition",
    "Win32_UI_Input_KeyboardAndMouse",
    "Win32_UI_WindowsAndMessaging",
]
