[package]
name = "bevy_fmod_phonon"
version = "0.1.0"
edition = "2021"
publish = false

[dependencies]
audionimbus = { version = "=0.16.0", features = ["fmod"] }
bevy = { version = "=0.18.1", default-features = false, features = ["bevy_render", "bevy_asset"] }
bevy_fmod = "=0.10.0"
libfmod = "=2.222.6"
