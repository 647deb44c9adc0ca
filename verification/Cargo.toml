[package]
name = "rwig"
version = "0.1.0"
edition = "2021"
publish = false

[dependencies]
ipc-channel = "0.16"
serde = { version = "1", features = ["derive"] }
thiserror = "1"
once_cell = "1"
lazy_static = "1"
windows = { version = "0.43", features = ["Win32_Foundation", "Win32_System_Threading", "Win32_Media_Audio", "Win32_System_Com", "Win32_System_Com_StructuredStorage", "Win32_System_Ole", "Win32_Devices_Properties", "Win32_UI_Shell_PropertiesSystem", "Win32_System_Console"] }
dll-syringe = "0.15"
detour = "0.8"
