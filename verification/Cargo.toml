[package]
name = "voicegate"
version = "0.1.0"
edition = "2021"
publish = false

[dependencies]
webrtc-vad = "*"
circular-buffer = "*"
eyre = "*"
