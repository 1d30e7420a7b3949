[package]
name = "audio_device"
version = "0.1.0"
edition = "2021"
publish = false

[dependencies]
cpal = "0.11"
