[package]
name = "keyframe"
version = "0.1.0"
edition = "2021"
publish = false

[dependencies]
mint = "*"
num-traits = "*"
