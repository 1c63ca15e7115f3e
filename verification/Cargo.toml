[package]
name = "equilibrium"
version = "0.1.0"
edition = "2021"
publish = false

[dependencies]
rapier2d = "=0.17.2"
nalgebra = "=0.32.6"
rand = "=0.8.8"
chrono = { version = "=0.4.45", default-features = false, features = ["clock"] }
bevy = { version = "=0.9.1", default-features = false, features = ["bevy_asset", "bevy_core_pipeline", "bevy_render", "bevy_sprite", "bevy_text", "bevy_ui", "bevy_winit", "x11"] }
bevy_rapier2d = "=0.20.0"
bevy_prototype_lyon = "=0.7.2"
bevy_tweening = "0.6"
anyhow = "1"
resvg = { version = "0.28", default-features = false }
strum = { version = "0.24", features = ["derive"] }
itertools = "0.10"
