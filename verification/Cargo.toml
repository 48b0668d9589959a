[package]
name = "my_bevy_game"
version = "0.1.0"
edition = "2021"
publish = false

[dependencies]
bevy = { version = "=0.18.1", default-features = false, features = ["std", "bevy_ui", "bevy_state", "bevy_log", "bevy_sprite", "png", "keyboard", "mouse", "multi_threaded"] }
directories = "=5.0.1"
