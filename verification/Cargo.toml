[package]
name = "just_watch"
version = "0.1.0"
edition = "2021"
publish = false

[dependencies]
event-listener = "*"
futures = "*"
tokio = { version = "*", features = ["rt", "time"] }
