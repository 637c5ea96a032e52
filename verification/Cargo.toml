[package]
name = "raw_input"
version = "0.1.0"
edition = "2021"
publish = false

[dependencies]
windows = { version = "0.51", features = ["Win32_Foundation", "Win32_UI_Input", "Win32_UI_Input_KeyboardAndMouse", "Win32_UI_WindowsAndMessaging", "Win32_Devices_HumanInterfaceDevice", "Win32_Graphics_Gdi", "Win32_System_LibraryLoader"] }
