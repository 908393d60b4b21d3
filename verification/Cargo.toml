[package]
name = "viewport_camera"
version = "0.1.0"
edition = "2021"
publish = false

[dependencies]
bevy_app = "0.2"
bevy_ecs = "0.2"
bevy_math = "0.2"
bevy_property = "0.2"
bevy_window = "0.2"
