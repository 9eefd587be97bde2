[package]
name = "kanata_ime_observer"
version = "0.1.0"
edition = "2021"
publish = false

[dependencies]
backon = "=1.6.0"
core-foundation = "=0.10.1"
core-foundation-sys = "=0.8.7"
dbus = "=0.9.12"
lexopt = "=0.3.2"
log = "=0.4.34"
once_cell = "=1.21.4"
serde = { version = "=1.0.229", features = ["derive"] }
serde_json = "=1.0.154"
simple_logger = "=5.2.0"
thiserror = "=2.0.21"
windows = { version = "=0.61.3", features = ["Win32_Devices_HumanInterfaceDevice", "Win32_Foundation", "Win32_Globalization", "Win32_System_LibraryLoader", "Win32_System_SystemServices", "Win32_UI_Accessibility", "Win32_UI_Input", "Win32_UI_Input_Ime", "Win32_UI_Input_KeyboardAndMouse", "Win32_UI_WindowsAndMessaging"] }
