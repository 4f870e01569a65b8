[package]
name = "now_playing"
version = "0.1.0"
edition = "2021"
publish = false

[dependencies]
anyhow = "=1.0.104"
tokio = { version = "=1.54.1", features = ["rt", "sync", "time", "macros"] }
tracing = "=0.1.44"
discord-rich-presence = "=1.1.0"
mpris-server = "=0.11.0"
tempfile = "=3.27.0"
block2 = "=0.6.2"
objc2 = "=0.6.5"
objc2-foundation = "=0.3.2"
objc2-app-kit = "=0.3.2"
objc2-media-player = "=0.3.2"
windows = { version = "0.61", features = ["Foundation", "Foundation_Collections", "Media", "Storage_Streams", "Win32_Foundation", "Win32_System_WinRT"] }
