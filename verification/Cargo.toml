[package]
name = "viewport_split"
version = "0.1.0"
edition = "2021"
publish = false

[dependencies]
bevy = { version = "0.8", default-features = false, features = ["bevy_core_pipeline", "bevy_render", "bevy_winit", "x11"] }
