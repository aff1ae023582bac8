[package]
name = "leap_grab"
version = "0.1.0"
edition = "2021"
publish = false

[dependencies]
bevy = { version = "0.9", default-features = false, features = ["bevy_asset", "bevy_core_pipeline", "bevy_pbr", "bevy_render", "bevy_winit", "x11"] }
bevy_editor_pls = { version = "0.2", default-features = false }
leaprs = "*"
mac = "0.1"
