[package]
name = "playback_connect"
version = "0.1.0"
edition = "2021"
publish = false

[dependencies]
windows = { version = "=0.48.0", features = ["Devices_Enumeration", "Foundation", "Media_Audio"] }
