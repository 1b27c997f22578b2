[package]
name = "roguelite_core"
version = "0.1.0"
edition = "2021"
publish = false

[dependencies]
bevy = { version = "0.16", default-features = false, features = ["std", "bevy_state", "bevy_color", "bevy_log", "bevy_asset", "bevy_window", "bevy_render", "bevy_core_pipeline", "bevy_sprite", "bevy_ui", "bevy_text", "default_font"] }
rand = "0.8"
serde = { version = "1", features = ["derive"] }
serde_json = "1"
