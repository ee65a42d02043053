[package]
name = "frame_handoff"
version = "0.1.0"
edition = "2021"
publish = false

[dependencies]
anyhow = "1"
bevy = { version = "0.8", default-features = false, features = ["bevy_asset", "bevy_winit", "render", "x11"] }
byte-slice-cast = "1"
derive_more = "0.99"
glib = "0.15"
gstreamer = "0.18"
gstreamer-app = "0.18"
