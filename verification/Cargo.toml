[package]
name = "camera_detect"
version = "0.1.0"
edition = "2021"
publish = false

[dependencies]
windows = { version = "*", features = [
    "Win32_Foundation",
    "Win32_Media_DirectShow",
    "Win32_Media_MediaFoundation",
    "Win32_System_Com",
    "Win32_System_Com_StructuredStorage",
    "Win32_System_Ole",
    "Win32_System_Variant",
] }
