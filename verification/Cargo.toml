[package]
name = "gdble"
version = "0.1.0"
edition = "2021"
publish = false

[dependencies]
godot = "*"
simplersble = "*"
tokio = { version = "1", features = ["rt-multi-thread"] }
futures = "0.3"
