[package]
name = "widget_bridge"
version = "0.1.0"
edition = "2021"
publish = false

[dependencies]
base64 = "0.22"
image = { version = "0.25", default-features = false, features = ["png"] }
machine-info = "1.0.9"
serde = { version = "1", features = ["derive"] }
serde_json = "1"
sysinfo = { version = "0.32", features = ["serde"] }
toml = "0.8"
windows = { version = "0.58", features = ["Foundation", "Graphics_Imaging", "Media_Control", "Media_Playback", "Storage_Streams"] }
