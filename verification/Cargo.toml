[package]
name = "jarvis"
version = "0.1.0"
edition = "2021"
publish = false

[dependencies]
rand = "0.8"
urlencoding = "2"
once_cell = "1"
log = "0.4"
serde = { version = "1", features = ["derive"] }
serde_json = "1"
chrono = { version = "0.4", features = ["serde"] }
signal-hook = "0.3"
platform-dirs = "0.3"
dirs = "5"
simple-log = "1"

[dev-dependencies]
tempfile = "3"
