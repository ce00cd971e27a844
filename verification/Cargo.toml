[package]
name = "response_cache"
version = "0.1.0"
edition = "2021"
publish = false

[dependencies]
eyre = "0.6"
rusqlite = "*"

[dev-dependencies]
tempfile = "3"
uuid = { version = "1", features = ["v4"] }
