[package]
name = "screen_runtime"
version = "0.1.0"
edition = "2021"
publish = false

[dependencies]
bevy = { version = "=0.14.2", default-features = false, features = ["bevy_state", "bevy_asset", "bevy_audio"] }
