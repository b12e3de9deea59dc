[package]
name = "gesture_studio"
version = "0.1.0"
edition = "2021"
publish = false

[dependencies]
base64 = "0.22"
chrono = { version = "0.4", features = ["serde"] }
crossbeam-channel = "0.5"
directories = "5"
image = { version = "0.25", default-features = false, features = ["jpeg"] }
rusqlite = { version = "0.32", features = ["bundled"] }
serde = { version = "1", features = ["derive"] }
serde_json = "1"
thiserror = "2"
toml = "0.8"
tracing = "0.1"
tracing-subscriber = { version = "0.3", features = ["env-filter"] }
uuid = { version = "1", features = ["v4", "serde"] }
windows = { version = "0.58", features = ["Devices_Enumeration", "Foundation", "Foundation_Collections", "Graphics_Imaging", "Media_Capture", "Media_Capture_Frames", "Storage_Streams"] }
