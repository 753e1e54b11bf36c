[package]
name = "bevy_ratatui"
version = "0.1.0"
edition = "2021"
publish = false

[dependencies]
bevy = { version = "0.17", default-features = false }
ratatui = "0.29"
