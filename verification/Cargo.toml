[package]
name = "reminder_bot"
version = "0.1.0"
edition = "2021"
publish = false

[dependencies]
reqwest = { version = "0.11", features = ["blocking"] }
uuid = { version = "1", features = ["v4"] }
