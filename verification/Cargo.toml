[package]
name = "midi_controller"
version = "0.1.0"
edition = "2021"
publish = false

[dependencies]
midi-control = { version = "*", default-features = false }
midir = "*"
serde = { version = "*", features = ["derive"] }
