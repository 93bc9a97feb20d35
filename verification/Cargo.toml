[package]
name = "replay_analyzer"
version = "0.1.0"
edition = "2021"
publish = false

[dependencies]
serde-pickle = "*"
