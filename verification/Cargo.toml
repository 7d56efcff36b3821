[package]
name = "bevy_nokhwa"
version = "0.1.0"
edition = "2021"
publish = false

[dependencies]
flume = { version = "*", default-features = false }
image = { version = "*", default-features = false }
nokhwa = { version = "0.10", default-features = false, features = ["output-threaded"] }
anyhow = "*"
