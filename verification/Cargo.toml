[package]
name = "camera_movement"
version = "0.1.0"
edition = "2021"
publish = false

[dependencies]
bevy = { version = "=0.12.1", default-features = false }
bevy_third_person_camera = "=0.1.8"
