[package]
name = "house_adventure"
version = "0.1.0"
edition = "2021"
publish = false

[dependencies]
bevy = { version = "0.9", default-features = false, features = ["bevy_winit", "bevy_core_pipeline", "bevy_render", "bevy_sprite", "bevy_asset", "png", "x11"] }
bevy_embedded_assets = "0.6"
bevy_rapier2d = "0.20"
lerp = "0.4"
