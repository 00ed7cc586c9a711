[package]
name = "action_controller"
version = "0.1.0"
edition = "2021"
publish = false

[dependencies]
bevy = { version = "=0.14.2", default-features = false, features = ["bevy_asset", "bevy_state", "bevy_winit", "x11"] }
bevy_asset_loader = { version = "0.21", default-features = false }
image = { version = "0.25", default-features = false, features = ["png"] }
winit = { version = "0.30", default-features = false }
