[package]
name = "tedium"
version = "0.1.0"
edition = "2021"
publish = false

[dependencies]
shadowcaster = "=0.6.1"
pathfinding = "=4.16.0"
bevy = { version = "=0.14.2", default-features = false }
