[package]
name = "portal2_sdk"
version = "0.1.0"
edition = "2021"
publish = false

[dependencies]
log = "0.4"
windows = { version = "0.58", features = ["Win32_Foundation", "Win32_System_LibraryLoader", "Win32_System_ProcessStatus", "Win32_System_Threading"] }
