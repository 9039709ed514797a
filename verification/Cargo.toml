[package]
name = "viewport_orientation_gizmo"
version = "0.1.0"
edition = "2021"
publish = false

[dependencies]
bevy = { version = "=0.7.0", default-features = false, features = ["render"] }
bevy_mod_raycast = "0.5"
