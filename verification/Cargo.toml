[package]
name = "mmms"
version = "0.1.0"
edition = "2021"
publish = false

[dependencies]
smallvec = "1.16.2"
musical_scales = "0.2.0"
audio-clock = "0.2.0"
bela = "0.9.0"
