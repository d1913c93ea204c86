[package]
name = "island_world"
version = "0.1.0"
edition = "2021"
publish = false

[dependencies]
bevy = { version = "0.10", default-features = false }
interpolation = "0.2"
serde = { version = "1", features = ["derive"] }
