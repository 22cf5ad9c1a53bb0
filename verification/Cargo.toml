[package]
name = "game_of_life"
version = "0.1.0"
edition = "2021"
publish = false

[dependencies]
configparser = "*"
serde = { version = "1", features = ["derive"] }
serde_json = "1"
