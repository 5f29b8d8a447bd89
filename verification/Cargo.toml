[package]
name = "bevy_admob"
version = "0.1.0"
edition = "2021"
publish = false

[dependencies]
bevy_app = "*"
bevy_color = "*"
bevy_ecs = "*"
bevy_log = "*"
bevy_reflect = "*"
bevy_time = "*"
bevy_ui = "*"
crossbeam = "*"
once_cell = "*"
serde = { version = "*", features = ["derive"] }
swift-bridge = "*"
