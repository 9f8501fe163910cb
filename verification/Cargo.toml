[package]
name = "hot_reload"
version = "0.1.0"
edition = "2021"
publish = false

[dependencies]
bevy = { version = "0.11", default-features = false }
crossbeam = "0.8"
libloading = "0.8"
rmp-serde = "1"
serde = { version = "1", features = ["derive"] }
