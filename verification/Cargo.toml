[package]
name = "platformer_core"
version = "0.1.0"
edition = "2021"
publish = false

[dependencies]
rand = "=0.9.5"
bevy = { version = "=0.17.3", default-features = false, features = ["std", "bevy_state", "bevy_asset", "bevy_mesh", "bevy_camera", "bevy_color", "bevy_log", "bevy_window", "bevy_render", "bevy_core_pipeline", "bevy_sprite", "bevy_sprite_render"] }
avian2d = { version = "=0.4.1", default-features = false, features = ["2d", "f32", "parry-f32"] }
