[package]
name = "bevy_editor_pls_core"
version = "0.1.0"
edition = "2021"
publish = false

[dependencies]
indexmap = "=1.9.3"
bevy = { version = "=0.6.1", default-features = false, features = ["render", "bevy_winit", "x11"] }
bevy_egui = { version = "=0.11.1", default-features = false }
bevy-inspector-egui = { version = "=0.8.2", default-features = false }
bevy_mod_picking = { version = "=0.5.5", default-features = false }
darling = "=0.13.4"
