[package]
name = "bow_rogue"
version = "0.1.0"
edition = "2021"
publish = false

[dependencies]
bevy = { version = "=0.19.1", default-features = false }
inventory = "=0.3.25"
rand = "=0.10.3"
ron = "=0.12.3"
serde = { version = "=1.0.229", features = ["derive"] }
