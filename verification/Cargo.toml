[package]
name = "vad"
version = "0.1.0"
edition = "2021"
publish = false

[dependencies]
webrtc-vad = "=0.4.0"
jni = "=0.21.1"
eyre = "=0.6.14"
