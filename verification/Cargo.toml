[package]
name = "voice_dictation"
version = "0.1.0"
edition = "2021"
publish = false

[dependencies]
arboard = { version = "=3.7.0", default-features = false }
chrono = { version = "=0.4.45", default-features = false, features = ["clock"] }
core-foundation = "=0.10.1"
core-graphics = "=0.24.0"
cpal = "=0.15.3"
crossbeam-channel = "=0.5.17"
hound = "=3.5.1"
reqwest = { version = "=0.12.28", default-features = false, features = ["multipart", "rustls-tls"] }
resvg = { version = "=0.45.1", default-features = false }
serde = { version = "=1.0.229", features = ["derive"] }
serde_json = "=1.0.154"
windows = { version = "=0.54.0", features = ["Win32_Foundation", "Win32_System_Diagnostics_Debug", "Win32_System_LibraryLoader", "Win32_UI_Input_KeyboardAndMouse", "Win32_UI_WindowsAndMessaging"] }
