[package]
name = "forte"
version = "0.1.0"
edition = "2021"
publish = false

[dependencies]
rand = "0.8"
crossbeam-channel = "*"
atomic = "*"
atomic_float = "*"
rayon = "*"
hound = "*"
fundsp = "*"
vorbis_rs = "*"
mp3lame-encoder = "*"
midi-toolkit-rs = "*"
xsynth-core = "*"
