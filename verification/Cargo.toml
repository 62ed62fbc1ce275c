[package]
name = "bevy_spatial_egui"
version = "0.1.0"
edition = "2021"
publish = false

[dependencies]
bevy = { version = "=0.14.2", default-features = false, features = ["x11"] }
bevy_egui = { version = "=0.30.1", default-features = false }
