[package]
name = "dmz"
version = "0.1.0"
edition = "2021"
publish = false

[dependencies]
bevy = { version = "0.15", default-features = false, features = ["bevy_state", "bevy_ui", "bevy_text", "bevy_pbr", "bevy_gizmos", "bevy_gltf", "bevy_scene", "bevy_window", "bevy_core_pipeline", "bevy_render", "bevy_asset", "bevy_color", "png", "default_font", "multi_threaded"] }
