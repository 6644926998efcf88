[package]
name = "justin_rpg"
version = "0.1.0"
edition = "2021"
publish = false

[dependencies]
rand = "=0.8.8"
serde = { version = "=1.0.229", features = ["derive"] }
bincode = "=1.3.3"
bevy = { version = "=0.19.1", default-features = false }
bevy_renet = "=5.0.0"
