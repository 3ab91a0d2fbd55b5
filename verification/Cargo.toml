[package]
name = "farmfun"
version = "0.1.0"
edition = "2021"
publish = false

[dependencies]
bevy = { version = "=0.12.1", default-features = false }
rand = "=0.8.8"
