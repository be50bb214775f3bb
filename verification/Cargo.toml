[package]
name = "adm_updater"
version = "0.1.0"
edition = "2021"
publish = false

[dependencies]
rand = "=0.9.5"
hex = "=0.4.3"
sha2 = "=0.10.9"
log = "=0.4.34"
fern = "=0.7.1"
chrono = "=0.4.45"
platform-dirs = "=0.3.0"
whoami = "=1.6.1"
sysinfo = "=0.29.11"
named_pipe = "=0.4.1"
walkdir = "=2.5.0"
anyhow = "=1.0.104"
reqwest = { version = "=0.12.28", features = ["blocking"] }
winreg = "=0.10.1"
windows-permissions = "=0.2.4"
windows = { version = "=0.48.0", features = ["Win32_Foundation", "Win32_System_Console", "Win32_UI_Shell", "Win32_UI_WindowsAndMessaging", "Win32_Storage_FileSystem", "Win32_System_SystemInformation", "Win32_System_Diagnostics_Debug", "Win32_System_Threading"] }
