[package]
name = "lunatic_state"
version = "0.1.0"
edition = "2021"
publish = false

[dependencies]
anyhow = "*"
async-std = "*"
dashmap = "*"
uuid = { version = "*", features = ["v4"] }
