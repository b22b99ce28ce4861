[package]
name = "block_breaker"
version = "0.1.0"
edition = "2021"
publish = false

[dependencies]
rand = "=0.8.8"
bevy = { version = "=0.10.1", default-features = false, features = ["bevy_asset", "bevy_core_pipeline", "bevy_render", "bevy_sprite", "bevy_text", "bevy_ui", "bevy_winit", "png", "x11"] }
bevy_rapier2d = { version = "=0.21.0", default-features = false, features = ["dim2", "async-collider", "debug-render-2d"] }
bevy_prototype_lyon = "=0.8.0"
bevy_hanabi = { version = "=0.6.2", default-features = false, features = ["2d"] }
bevy_asset_loader = { version = "=0.16.1", features = ["2d"] }
