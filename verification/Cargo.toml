[package]
name = "anno1800_agent"
version = "0.1.0"
edition = "2021"
publish = false

[dependencies]
log = "=0.4.35"
serde = { version = "=1.0.229", features = ["derive"] }
serde_json = "=1.0.154"
clap = { version = "=4.6.7", features = ["derive"] }
simple_logger = "=4.3.3"
sysinfo = "=0.29.11"
win_dbg_logger = "=0.1.0"
windows = { version = "=0.48.0", features = ["Win32_Foundation", "Win32_Security", "Win32_System_LibraryLoader", "Win32_System_Memory", "Win32_System_Diagnostics_Debug", "Win32_System_Threading", "Win32_System_SystemServices"] }
