[package]
name = "bevy_easy_database"
version = "0.1.0"
edition = "2021"
publish = false

[dependencies]
bevy_app = "*"
bevy_derive = "*"
bevy_ecs = "*"
bincode = "1"
fjall = "*"
serde = { version = "*", features = ["derive"] }
