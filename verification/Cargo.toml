[package]
name = "cube_sphere"
version = "0.1.0"
edition = "2021"
publish = false

[dependencies]
bevy = { version = "=0.6.1", default-features = false, features = ["render", "bevy_winit", "x11"] }
bevy-inspector-egui = { version = "=0.8.2", default-features = false }
smooth-bevy-cameras = "=0.2.0"
noise = "=0.7.0"
# bevy's derive crates use syn's `full` feature without asking for it; darling asks for it.
darling = "0.13"
