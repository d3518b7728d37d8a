[package]
name = "rubiks_cube"
version = "0.1.0"
edition = "2021"
publish = false

[dependencies]
bevy = { version = "0.14", default-features = false, features = ["bevy_asset", "bevy_color"] }
bevy_prng = { version = "0.7", features = ["rand_chacha"] }
bevy_rand = { version = "0.7", features = ["rand_chacha"] }
rand_core = "0.6"
