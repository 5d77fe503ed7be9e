[package]
name = "bevy_widget"
version = "0.1.0"
edition = "2021"
publish = false

[dependencies]
bevy_app = "0.9"
bevy_ecs = "0.9"
bevy_hierarchy = "0.9"
bevy_reflect = "0.9"
bevy_ui = "0.9"
