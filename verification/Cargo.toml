[package]
name = "pong_rules"
version = "0.1.0"
edition = "2021"
publish = false

[dependencies]
rand = "0.9"
bevy = { version = "0.17", default-features = false, features = ["std"] }
avian2d = { version = "0.4", default-features = false, features = ["2d", "f32", "parry-f32"] }
