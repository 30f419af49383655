[package]
name = "avian"
version = "0.1.0"
edition = "2021"
publish = false

[dependencies]
bevy = { version = "=0.18.1", default-features = false }
parry2d = "=0.31.1"
parry3d = "0.31"
serde = { version = "=1.0.229", features = ["derive"] }
