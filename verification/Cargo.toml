[package]
name = "xterminate"
version = "2.0.0"
edition = "2021"
publish = false

[dependencies]
chrono = "0.4"
os_info = "3"
reqwest = { version = "0.11", features = ["blocking", "json"] }
serde = { version = "1", features = ["derive"] }
tempfile = "3"
thiserror = "1"
tokio = { version = "1", features = ["rt", "rt-multi-thread"] }
toml = "0.5"
windows = { version = "0.52", features = ["Win32_Foundation", "Win32_Security", "Win32_System_Threading", "Win32_System_LibraryLoader", "Win32_System_Registry", "Win32_System_Diagnostics_ToolHelp", "Win32_System_Com", "Win32_Graphics_Gdi", "Win32_UI_WindowsAndMessaging", "Win32_UI_Input", "Win32_UI_Input_KeyboardAndMouse", "Win32_UI_Shell", "Win32_UI_Shell_Common", "Win32_UI_Controls", "Win32_Devices_HumanInterfaceDevice"] }
zip = "0.6"
