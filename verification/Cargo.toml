[package]
name = "game_server"
version = "0.1.0"
edition = "2021"
publish = false

[dependencies]
serde = { version = "1", features = ["derive"] }
tokio = { version = "1", features = ["sync", "time", "macros", "rt"] }
async-trait = "0.1"
lazy_static = "1"
ipc-channel = "*"
