[package]
name = "fos_client"
version = "0.1.0"
edition = "2021"
publish = false

[dependencies]
bevy = { version = "0.17", default-features = false, features = ["std", "bevy_state"] }
bevy_egui = { version = "0.37", default-features = false }
serde = { version = "1", features = ["derive"] }
